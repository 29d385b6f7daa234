//! Hashing an installer and telling its type and architecture from its file
//! name.
//!
//! The caller reads the bytes, from a download or from a file, and hands
//! them over piece by piece.

use crate::chars::{
    chars_of, is_text, lowercase_text, opt_text, push_str, slice_of, str_to_lowercase, string_of,
};
use crate::digest::{
    absorbed, hasher_finalize, hasher_new, hasher_update, hex_upper, sha256, to_hex_upper,
    Sha256State,
};
use crate::http::{is_success, opt_str, push_status, status_text};
use crate::text::{
    before_first, contains_text, ends_in, ends_with, find_text, first_match, has_word,
    take_before_first, trim_by, trimmed_by, CharClass,
};
use vstd::prelude::*;

verus! {

/// What is known of an installer once it has been hashed.
#[derive(Debug, Clone)]
pub struct HashResult {
    pub sha256: String,
    pub file_size: u64,
    pub file_name: String,
    pub detected_type: Option<String>,
    pub detected_arch: Option<String>,
    pub signature_sha256: Option<String>,
}

/// The texts of a [`HashResult`].
pub struct HashResultView {
    pub sha256: Seq<char>,
    pub file_size: u64,
    pub file_name: Seq<char>,
    pub detected_type: Option<Seq<char>>,
    pub detected_arch: Option<Seq<char>>,
    pub signature_sha256: Option<Seq<char>>,
}

impl View for HashResult {
    type V = HashResultView;

    open spec fn view(&self) -> HashResultView {
        HashResultView {
            sha256: self.sha256@,
            file_size: self.file_size,
            file_name: self.file_name@,
            detected_type: opt_text(self.detected_type),
            detected_arch: opt_text(self.detected_arch),
            signature_sha256: opt_text(self.signature_sha256),
        }
    }
}

/// The installer type that a file name in lower case ends with.
pub open spec fn installer_type(lower: Seq<char>) -> Option<Seq<char>> {
    if ends_with(lower, ".msi"@) {
        Some("msi"@)
    } else if ends_with(lower, ".msix"@) || ends_with(lower, ".msixbundle"@) || ends_with(
        lower,
        ".appx"@,
    ) {
        Some("msix"@)
    } else if ends_with(lower, ".exe"@) {
        Some("exe"@)
    } else if ends_with(lower, ".zip"@) {
        Some("zip"@)
    } else {
        None
    }
}

/// The architecture that a file name in lower case names. Of several names
/// the first in this order counts: the 64-bit ARM names, the 64-bit x86
/// names, the 32-bit x86 names, `arm`.
pub open spec fn architecture(lower: Seq<char>) -> Option<Seq<char>> {
    if contains_text(lower, "arm64"@) || contains_text(lower, "aarch64"@) {
        Some("arm64"@)
    } else if contains_text(lower, "x64"@) || contains_text(lower, "amd64"@) || contains_text(
        lower,
        "win64"@,
    ) || contains_text(lower, "x86_64"@) {
        Some("x64"@)
    } else if contains_text(lower, "x86"@) || contains_text(lower, "win32"@) || contains_text(
        lower,
        "ia32"@,
    ) || contains_text(lower, "i686"@) || contains_text(lower, "i386"@) {
        Some("x86"@)
    } else if contains_text(lower, "arm"@) {
        Some("arm"@)
    } else {
        None
    }
}



/// The installer type that a file name in lower case ends with.
pub fn installer_type_of(lower: &str) -> (r: Option<String>)
    ensures
        opt_text(r) == installer_type(lower@),
{
    let v = chars_of(lower);
    if ends_in(&v, ".msi") {
        Some("msi".to_owned())
    } else if ends_in(&v, ".msix") || ends_in(&v, ".msixbundle") || ends_in(&v, ".appx") {
        Some("msix".to_owned())
    } else if ends_in(&v, ".exe") {
        Some("exe".to_owned())
    } else if ends_in(&v, ".zip") {
        Some("zip".to_owned())
    } else {
        None
    }
}

/// The architecture that a file name in lower case names.
pub fn architecture_of(lower: &str) -> (r: Option<String>)
    ensures
        opt_text(r) == architecture(lower@),
{
    let v = chars_of(lower);
    if has_word(&v, "arm64") || has_word(&v, "aarch64") {
        Some("arm64".to_owned())
    } else if has_word(&v, "x64") || has_word(&v, "amd64") || has_word(&v, "win64") || has_word(&v, "x86_64") {
        Some("x64".to_owned())
    } else if has_word(&v, "x86") || has_word(&v, "win32") || has_word(&v, "ia32") || has_word(&v, "i686")
        || has_word(&v, "i386") {
        Some("x86".to_owned())
    } else if has_word(&v, "arm") {
        Some("arm".to_owned())
    } else {
        None
    }
}

/// The installer type of a file, by the end of its name in lower case.
pub fn detect_installer_type(filename: &str) -> (r: Option<String>)
    ensures
        opt_text(r) == installer_type(lowercase_text(filename@)),
{
    let lower = str_to_lowercase(filename);
    installer_type_of(lower.as_str())
}

/// The architecture of a file, by its name in lower case.
pub fn detect_architecture(filename: &str) -> (r: Option<String>)
    ensures
        opt_text(r) == architecture(lowercase_text(filename@)),
{
    let lower = str_to_lowercase(filename);
    architecture_of(lower.as_str())
}

/// The file name that a `Content-Disposition` header gives: what stands
/// between the first `filename=` and the next one or the end, without the
/// double quotes around it.
pub open spec fn header_file_name(header: Seq<char>) -> Option<Seq<char>> {
    let i = first_match(header, "filename="@);
    if 0 <= i < header.len() {
        let rest = header.skip(i + "filename="@.len());
        Some(trimmed_by(rest.take(first_match(rest, "filename="@)), CharClass::Only('"')))
    } else {
        None
    }
}

/// The name of a downloaded file: the one that the header gives; without
/// that, the last part of the address's path; without that, `unknown`.
pub open spec fn download_name(header: Option<Seq<char>>, path_name: Option<Seq<char>>) -> Seq<char> {
    let from_header = match header {
        Some(h) => header_file_name(h),
        None => None,
    };
    match from_header {
        Some(n) => n,
        None => match path_name {
            Some(n) => n,
            None => "unknown"@,
        },
    }
}

/// What can be the file name of a path: none, or a part of the path.
pub open spec fn is_name_in(path_name: Option<Seq<char>>, path: Seq<char>) -> bool {
    path_name matches Some(name) ==> contains_text(path, name)
}

/// `Path::file_name` of the standard library returns the final component of
/// a path, if it has one. What counts as a separator depends on the system,
/// so all that is said here is that the component is a part of the path.
#[verifier::external_body]
fn path_file_name(path: &str) -> (r: Option<String>)
    ensures
        is_name_in(opt_text(r), path@),
{
    std::path::Path::new(path).file_name().map(|name| name.to_string_lossy().to_string())
}

/// The file name that a `Content-Disposition` header gives.
pub fn file_name_from_header(header: &str) -> (r: Option<String>)
    ensures
        opt_text(r) == header_file_name(header@),
{
    let h = chars_of(header);
    let pattern = chars_of("filename=");
    let i = find_text(&h, &pattern);
    if i < h.len() {
        let rest = slice_of(&h, i + pattern.len(), h.len());
        let end = find_text(&rest, &pattern);
        let piece = slice_of(&rest, 0, end);
        let name = trim_by(&piece, CharClass::Only('"'));
        Some(string_of(&name))
    } else {
        None
    }
}

/// The name of a downloaded file from what the header gives and what the
/// address's path ends with.
pub fn resolve_download_name(header: Option<&str>, path_name: Option<String>) -> (r: String)
    ensures
        r@ == download_name(opt_str(header), opt_text(path_name)),
{
    let from_header = match header {
        Some(h) => file_name_from_header(h),
        None => None,
    };
    match from_header {
        Some(n) => n,
        None => match path_name {
            Some(n) => n,
            None => "unknown".to_owned(),
        },
    }
}

/// The name of a downloaded file. Where the header gives none, the name is
/// the last part of the address without its query, as the system's paths
/// have it: a part of that address, or `unknown` where it has no last part.
pub fn download_file_name(header: Option<&str>, url: &str) -> (r: String)
    ensures
        exists|path_name: Option<Seq<char>>|
            is_name_in(path_name, before_first(url@, '?')) && r@ == download_name(
                opt_str(header),
                path_name,
            ),
{
    let no_query = string_of(&take_before_first(&chars_of(url), '?'));
    let path_name = path_file_name(no_query.as_str());
    let ghost pn = opt_text(path_name);
    let r = resolve_download_name(header, path_name);
    proof {
        assert(is_name_in(pn, before_first(url@, '?')) && r@ == download_name(opt_str(header), pn));
    }
    r
}

/// The name of a local file: the last part of its path, as the system's
/// paths have it, which is a part of the path, or `unknown` where the path
/// has no last part.
pub fn local_file_name(path: &str) -> (r: String)
    ensures
        exists|path_name: Option<Seq<char>>|
            is_name_in(path_name, path@) && r@ == download_name(None, path_name),
{
    let path_name = path_file_name(path);
    let ghost pn = opt_text(path_name);
    let r = resolve_download_name(None, path_name);
    proof {
        assert(is_name_in(pn, path@) && r@ == download_name(None, pn));
    }
    r
}

/// The name of the file in which a download is kept while its signature is
/// read.
pub open spec fn temp_name(file_name: Seq<char>) -> Seq<char> {
    "unicreate_"@ + file_name
}

/// The name of the file in which a download is kept while its signature is
/// read.
pub fn temp_file_name(file_name: &str) -> (r: String)
    ensures
        r@ == temp_name(file_name@),
{
    let mut out = chars_of("unicreate_");
    push_str(&mut out, file_name);
    string_of(&out)
}

/// What can go wrong while an installer is hashed.
#[derive(Debug, Clone, Copy, PartialEq, Eq, Structural)]
pub enum HashErrorKind {
    /// The download could not be started.
    Download,
    /// The download was answered with a status that does not report success.
    HttpStatus,
    /// The temporary file could not be created.
    TempFile,
    /// The download broke off.
    Stream,
    /// A piece could not be written to the temporary file.
    Write,
    /// There is no file at the path.
    NotFound,
    /// The file could not be opened.
    Open,
    /// The file could not be read.
    Read,
}

/// Why hashing failed: the kind of failure and a detail that ends the
/// message.
#[derive(Debug, Clone)]
pub struct HashError {
    pub kind: HashErrorKind,
    pub detail: String,
}

impl View for HashError {
    type V = (HashErrorKind, Seq<char>);

    open spec fn view(&self) -> (HashErrorKind, Seq<char>) {
        (self.kind, self.detail@)
    }
}

/// What the message of an error says before the detail.
pub open spec fn hash_message_head(kind: HashErrorKind) -> Seq<char> {
    match kind {
        HashErrorKind::Download => "Download failed: "@,
        HashErrorKind::HttpStatus => "HTTP error: "@,
        HashErrorKind::TempFile => "Temp file error: "@,
        HashErrorKind::Stream => "Stream error: "@,
        HashErrorKind::Write => "Write error: "@,
        HashErrorKind::NotFound => "File not found"@,
        HashErrorKind::Open => "Cannot open: "@,
        HashErrorKind::Read => "Read error: "@,
    }
}

impl HashError {
    /// An error with the detail that the caller reports.
    pub fn with_detail(kind: HashErrorKind, detail: &str) -> (r: HashError)
        ensures
            r@ == (kind, detail@),
    {
        HashError { kind, detail: detail.to_owned() }
    }

    /// The message of the error.
    pub fn message(&self) -> (r: String)
        ensures
            r@ == hash_message_head(self@.0) + self@.1,
    {
        let head = match self.kind {
            HashErrorKind::Download => "Download failed: ",
            HashErrorKind::HttpStatus => "HTTP error: ",
            HashErrorKind::TempFile => "Temp file error: ",
            HashErrorKind::Stream => "Stream error: ",
            HashErrorKind::Write => "Write error: ",
            HashErrorKind::NotFound => "File not found",
            HashErrorKind::Open => "Cannot open: ",
            HashErrorKind::Read => "Read error: ",
        };
        let mut out = chars_of(head);
        push_str(&mut out, self.detail.as_str());
        string_of(&out)
    }
}

/// Whether a download can be hashed: it can where the status reports
/// success, and else fails with the status as its detail.
pub fn check_download_status(status: u16) -> (r: Result<(), HashError>)
    ensures
        match r {
            Ok(_) => is_success(status),
            Err(e) => !is_success(status) && e@ == (HashErrorKind::HttpStatus, status_text(status)),
        },
{
    if 200 <= status && status <= 299 {
        Ok(())
    } else {
        let mut out: Vec<char> = Vec::new();
        push_status(&mut out, status);
        Err(HashError { kind: HashErrorKind::HttpStatus, detail: string_of(&out) })
    }
}

/// A hash in the making: the hasher and the number of bytes taken in.
pub struct HashAccumulator {
    hasher: Sha256State,
    file_size: u64,
}

impl View for HashAccumulator {
    type V = Seq<u8>;

    /// The bytes taken in so far.
    closed spec fn view(&self) -> Seq<u8> {
        absorbed(self.hasher)
    }
}

impl HashAccumulator {
    /// Whether the count of bytes is the number of bytes taken in.
    pub closed spec fn wf(&self) -> bool {
        self.file_size == absorbed(self.hasher).len()
    }

    /// An accumulator that has taken in nothing.
    pub fn new() -> (r: HashAccumulator)
        ensures
            r.wf(),
            r@ == Seq::<u8>::empty(),
    {
        HashAccumulator { hasher: hasher_new(), file_size: 0 }
    }

    /// The number of bytes taken in so far.
    pub fn file_size(&self) -> (n: u64)
        requires
            self.wf(),
        ensures
            n == self@.len(),
    {
        self.file_size
    }

    /// Whether a piece of the given length can still be counted.
    pub fn has_room(&self, len: usize) -> (r: bool)
        requires
            self.wf(),
        ensures
            r == (self@.len() + len <= u64::MAX),
    {
        len as u64 <= u64::MAX - self.file_size
    }

    /// Takes in one more piece.
    pub fn absorb(&mut self, chunk: &[u8])
        requires
            old(self).wf(),
            old(self)@.len() + chunk@.len() <= u64::MAX,
        ensures
            final(self).wf(),
            final(self)@ == old(self)@ + chunk@,
    {
        hasher_update(&mut self.hasher, chunk);
        self.file_size = self.file_size + chunk.len() as u64;
    }

    /// Takes in one more piece if it can still be counted, and says whether
    /// it did.
    pub fn try_absorb(&mut self, chunk: &[u8]) -> (taken: bool)
        requires
            old(self).wf(),
        ensures
            final(self).wf(),
            taken == (old(self)@.len() + chunk@.len() <= u64::MAX),
            taken ==> final(self)@ == old(self)@ + chunk@,
            !taken ==> final(self)@ == old(self)@,
    {
        if self.has_room(chunk.len()) {
            self.absorb(chunk);
            true
        } else {
            false
        }
    }

    /// The digest of all that was taken in, in upper-case hexadecimal, and
    /// the number of bytes.
    pub fn finish(self) -> (r: (String, u64))
        requires
            self.wf(),
        ensures
            r.0@ == hex_upper(sha256(self@)),
            r.1 == self@.len(),
    {
        let size = self.file_size;
        let digest = hasher_finalize(self.hasher);
        (to_hex_upper(&digest), size)
    }
}

/// What is known of a file with the given name and content: the digest of
/// the content, its length, and the type and architecture that the name in
/// lower case stands for.
pub open spec fn hash_result(
    file_name: Seq<char>,
    content: Seq<u8>,
    signature: Option<Seq<char>>,
) -> HashResultView {
    HashResultView {
        sha256: hex_upper(sha256(content)),
        file_size: content.len() as u64,
        file_name,
        detected_type: installer_type(lowercase_text(file_name)),
        detected_arch: architecture(lowercase_text(file_name)),
        signature_sha256: signature,
    }
}

/// Whether a file with this name is a package with a signature of its own.
pub open spec fn is_msix_name(file_name: Seq<char>) -> bool {
    installer_type(lowercase_text(file_name)) == Some("msix"@)
}

/// The name of the entry of a package that holds its signature.
pub open spec fn signature_entry() -> Seq<char> {
    "AppxSignature.p7x"@
}

/// The name of the entry of a package that holds its signature.
pub fn signature_entry_name() -> (r: &'static str)
    ensures
        r@ == signature_entry(),
{
    "AppxSignature.p7x"
}

/// The hashing of one file: its name, and the bytes taken in so far.
pub struct HashSession {
    file_name: String,
    accumulator: HashAccumulator,
}

impl View for HashSession {
    type V = (Seq<char>, Seq<u8>);

    /// The name of the file and the bytes taken in so far.
    closed spec fn view(&self) -> (Seq<char>, Seq<u8>) {
        (self.file_name@, self.accumulator@)
    }
}

impl HashSession {
    /// Whether the count of bytes is the number of bytes taken in.
    pub closed spec fn wf(&self) -> bool {
        self.accumulator.wf()
    }

    /// Starts the hashing of a file with the given name.
    pub fn begin(file_name: String) -> (r: HashSession)
        ensures
            r.wf(),
            r@ == (file_name@, Seq::<u8>::empty()),
    {
        HashSession { file_name, accumulator: HashAccumulator::new() }
    }

    /// The name of the file.
    pub fn file_name(&self) -> (r: &str)
        ensures
            r@ == self@.0,
    {
        self.file_name.as_str()
    }

    /// Whether the file is a package whose signature is to be hashed too.
    pub fn is_msix(&self) -> (r: bool)
        ensures
            r == is_msix_name(self@.0),
    {
        match detect_installer_type(self.file_name.as_str()) {
            Some(t) => {
                let v = chars_of(t.as_str());
                is_text(&v, "msix")
            },
            None => false,
        }
    }

    /// Whether a piece of the given length can still be counted.
    pub fn has_room(&self, len: usize) -> (r: bool)
        requires
            self.wf(),
        ensures
            r == (self@.1.len() + len <= u64::MAX),
    {
        self.accumulator.has_room(len)
    }

    /// Takes in one more piece of the file.
    pub fn absorb(&mut self, chunk: &[u8])
        requires
            old(self).wf(),
            old(self)@.1.len() + chunk@.len() <= u64::MAX,
        ensures
            final(self).wf(),
            final(self)@ == (old(self)@.0, old(self)@.1 + chunk@),
    {
        self.accumulator.absorb(chunk);
    }

    /// Takes in one more piece of the file if it can still be counted, and
    /// says whether it did.
    pub fn try_absorb(&mut self, chunk: &[u8]) -> (taken: bool)
        requires
            old(self).wf(),
        ensures
            final(self).wf(),
            taken == (old(self)@.1.len() + chunk@.len() <= u64::MAX),
            taken ==> final(self)@ == (old(self)@.0, old(self)@.1 + chunk@),
            !taken ==> final(self)@ == old(self)@,
    {
        self.accumulator.try_absorb(chunk)
    }

    /// What is known of the file once all of it has been taken in.
    /// `signature` is the digest of the package's signature, if the caller
    /// has read one.
    pub fn finish(self, signature: Option<String>) -> (r: HashResult)
        requires
            self.wf(),
        ensures
            r@ == hash_result(self@.0, self@.1, opt_text(signature)),
    {
        let detected_type = detect_installer_type(self.file_name.as_str());
        let detected_arch = detect_architecture(self.file_name.as_str());
        let (sha256, file_size) = self.accumulator.finish();
        HashResult {
            sha256,
            file_size,
            file_name: self.file_name,
            detected_type,
            detected_arch,
            signature_sha256: signature,
        }
    }
}

/// Starts the hashing of a download: settles the name of the file from the
/// `Content-Disposition` header of the answer, if it has one, and from the
/// address.
pub fn download_and_hash(url: &str, content_disposition: Option<&str>) -> (r: HashSession)
    ensures
        r.wf(),
        r@.1 == Seq::<u8>::empty(),
        exists|path_name: Option<Seq<char>>|
            is_name_in(path_name, before_first(url@, '?')) && r@.0 == download_name(
                opt_str(content_disposition),
                path_name,
            ),
{
    HashSession::begin(download_file_name(content_disposition, url))
}

/// Starts the hashing of a local file: settles the name of the file from
/// its path.
pub fn hash_local_file(path: &str) -> (r: HashSession)
    ensures
        r.wf(),
        r@.1 == Seq::<u8>::empty(),
        exists|path_name: Option<Seq<char>>|
            is_name_in(path_name, path@) && r@.0 == download_name(None, path_name),
{
    HashSession::begin(local_file_name(path))
}

} // verus!
