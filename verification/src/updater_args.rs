//! The arguments of the updater, which runs as a program of its own so that
//! it outlives the application.

use crate::chars::{chars_of, is_text, texts};
use crate::decimal::{parse_u32, parse_unsigned};
use vstd::prelude::*;

verus! {

/// What the updater is started with.
#[derive(Debug, Clone)]
pub struct UpdateArgs {
    /// Where to download the installer from.
    pub url: String,
    /// The name to save the installer under; empty to take it from the
    /// address.
    pub name: String,
    /// The program to start once the installer is done.
    pub app: String,
    /// The process to wait for before anything is installed.
    pub pid: u32,
}

/// The texts of an [`UpdateArgs`].
pub struct UpdateArgsView {
    pub url: Seq<char>,
    pub name: Seq<char>,
    pub app: Seq<char>,
    pub pid: u32,
}

impl View for UpdateArgs {
    type V = UpdateArgsView;

    open spec fn view(&self) -> UpdateArgsView {
        UpdateArgsView { url: self.url@, name: self.name@, app: self.app@, pid: self.pid }
    }
}

/// What has been read of the arguments so far.
pub struct ArgsSeen {
    pub url: Option<Seq<char>>,
    pub name: Option<Seq<char>>,
    pub app: Option<Seq<char>>,
    pub pid: Option<u32>,
}

/// The number that a text stands for, if it fits in 32 bits.
pub open spec fn pid_of(text: Seq<char>) -> Option<u32> {
    match parse_unsigned(text, u32::MAX as nat) {
        Some(n) => Some(n as u32),
        None => None,
    }
}

/// Reads the arguments from index `i` on. A flag that is followed by
/// another argument takes that argument as its value, and reading goes on
/// behind the value; a later value replaces an earlier one, and a process
/// number that cannot be read replaces an earlier one by none. Anything else
/// is passed over.
pub open spec fn scan_args(args: Seq<Seq<char>>, i: int, seen: ArgsSeen) -> ArgsSeen
    decreases args.len() - i,
{
    if i < 0 || i >= args.len() {
        seen
    } else if i + 1 < args.len() && args[i] == "--url"@ {
        scan_args(args, i + 2, ArgsSeen { url: Some(args[i + 1]), ..seen })
    } else if i + 1 < args.len() && args[i] == "--name"@ {
        scan_args(args, i + 2, ArgsSeen { name: Some(args[i + 1]), ..seen })
    } else if i + 1 < args.len() && args[i] == "--app"@ {
        scan_args(args, i + 2, ArgsSeen { app: Some(args[i + 1]), ..seen })
    } else if i + 1 < args.len() && args[i] == "--pid"@ {
        scan_args(args, i + 2, ArgsSeen { pid: pid_of(args[i + 1]), ..seen })
    } else {
        scan_args(args, i + 1, seen)
    }
}

/// The arguments of the updater in a command line, whose first entry is the
/// program itself: there are some where the address, the program and the
/// process number are all given; the name is empty unless it is given.
pub open spec fn update_args(args: Seq<Seq<char>>) -> Option<UpdateArgsView> {
    let seen = scan_args(
        args,
        1,
        ArgsSeen { url: None, name: None, app: None, pid: None },
    );
    if seen.url is Some && seen.app is Some && seen.pid is Some {
        Some(
            UpdateArgsView {
                url: seen.url->0,
                name: match seen.name {
                    Some(n) => n,
                    None => Seq::empty(),
                },
                app: seen.app->0,
                pid: seen.pid->0,
            },
        )
    } else {
        None
    }
}

/// The view of an optional string that is borrowed.
pub open spec fn opt_ref(o: Option<&String>) -> Option<Seq<char>> {
    match o {
        Some(s) => Some(s@),
        None => None,
    }
}

/// The arguments of the updater in a command line.
pub fn parse_args(args: &Vec<String>) -> (r: Option<UpdateArgs>)
    ensures
        match r {
            Some(a) => update_args(texts(args@)) == Some(a@),
            None => update_args(texts(args@)) is None,
        },
{
    let mut url: Option<&String> = None;
    let mut name: Option<&String> = None;
    let mut app: Option<&String> = None;
    let mut pid: Option<u32> = None;
    let ghost all = texts(args@);
    let ghost start = ArgsSeen { url: None, name: None, app: None, pid: None };
    let mut i: usize = 1;
    while i < args.len()
        invariant
            1 <= i,
            all == texts(args@),
            scan_args(all, 1, start) == scan_args(
                all,
                i as int,
                ArgsSeen { url: opt_ref(url), name: opt_ref(name), app: opt_ref(app), pid },
            ),
        decreases args.len() - i,
    {
        let flag = chars_of(args[i].as_str());
        proof {
            assert(all[i as int] == flag@);
            if i + 1 < args.len() {
                assert(all[i + 1] == args@[i + 1]@);
            }
        }
        if i + 1 < args.len() && is_text(&flag, "--url") {
            url = Some(&args[i + 1]);
            i += 2;
        } else if i + 1 < args.len() && is_text(&flag, "--name") {
            name = Some(&args[i + 1]);
            i += 2;
        } else if i + 1 < args.len() && is_text(&flag, "--app") {
            app = Some(&args[i + 1]);
            i += 2;
        } else if i + 1 < args.len() && is_text(&flag, "--pid") {
            let value = chars_of(args[i + 1].as_str());
            pid = parse_u32(&value);
            i += 2;
        } else {
            i += 1;
        }
    }
    match (url, app, pid) {
        (Some(u), Some(a), Some(p)) => Some(
            UpdateArgs {
                url: u.clone(),
                name: match name {
                    Some(n) => n.clone(),
                    None => String::new(),
                },
                app: a.clone(),
                pid: p,
            },
        ),
        _ => None,
    }
}

} // verus!
