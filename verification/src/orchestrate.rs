//! The per-command plumbing that is still pure logic: which success shape
//! each command expects, and the download plan a search result yields.

use vstd::prelude::*;

use crate::decode::CommandKind;
use crate::model::SearchResponse;
use crate::request::CLICommands;
use crate::strutil::{chars_of, push_char, string_from_chars};

verus! {

/// The success shape each command expects back.
pub fn command_kind_of(cmd: &CLICommands) -> (k: CommandKind)
    ensures
        (cmd matches CLICommands::Search(_) <==> k == CommandKind::Search),
        (cmd matches CLICommands::WallpaperInfo(_) <==> k == CommandKind::WallpaperInfo),
        (cmd matches CLICommands::TagInfo(_) <==> k == CommandKind::TagInfo),
        (cmd matches CLICommands::UserSettings(_) <==> k == CommandKind::UserSettings),
        (cmd matches CLICommands::UserCollections(_) <==> k == CommandKind::UserCollections),
{
    match cmd {
        CLICommands::Search(_) => CommandKind::Search,
        CLICommands::WallpaperInfo(_) => CommandKind::WallpaperInfo,
        CLICommands::TagInfo(_) => CommandKind::TagInfo,
        CLICommands::UserSettings(_) => CommandKind::UserSettings,
        CLICommands::UserCollections(_) => CommandKind::UserCollections,
    }
}

/// The characters after the last `/`; the whole string when there is no
/// slash, and empty when the string ends with one.
pub open spec fn last_segment(s: Seq<char>) -> Seq<char>
    decreases s.len(),
{
    if s.len() == 0 {
        Seq::empty()
    } else if s.last() == '/' {
        Seq::empty()
    } else {
        last_segment(s.drop_last()).push(s.last())
    }
}

/// The trailing path segment of a URL, used as the destination file name.
pub fn url_file_name(url: &str) -> (r: String)
    ensures
        r@ == last_segment(url@),
{
    let cs = chars_of(url);
    let n = cs.len();
    let mut cur: Vec<char> = Vec::new();
    let mut i: usize = 0;
    while i < n
        invariant
            n == cs@.len(),
            cs@ == url@,
            i <= n,
            cur@ == last_segment(url@.subrange(0, i as int)),
        decreases n - i,
    {
        let c = cs[i];
        proof {
            assert(url@.subrange(0, i + 1 as int).drop_last() =~= url@.subrange(0, i as int));
            assert(url@.subrange(0, i + 1 as int).last() == url@[i as int]);
        }
        if c == '/' {
            cur = Vec::new();
        } else {
            cur.push(c);
        }
        i = i + 1;
    }
    proof {
        assert(url@.subrange(0, n as int) =~= url@);
    }
    string_from_chars(&cur)
}

/// One planned download: the source URL and the destination path.
pub open spec fn download_entry(dir: Seq<char>, path: Seq<char>) -> (Seq<char>, Seq<char>) {
    (path, dir + "/"@ + last_segment(path))
}

/// The downloads a search result asks for when a destination directory
/// was supplied: one entry per item, in result order, each destination
/// named by the trailing segment of the item's download URL.
pub fn plan_downloads(resp: &SearchResponse, dir: &str) -> (plan: Vec<(String, String)>)
    ensures
        plan@.len() == resp.data@.len(),
        forall|i: int|
            0 <= i < plan@.len() ==> (#[trigger] plan@[i]).0@ == resp.data@[i].path@
                && plan@[i].1@ == dir@ + "/"@ + last_segment(resp.data@[i].path@),
{
    let mut plan: Vec<(String, String)> = Vec::new();
    let n = resp.data.len();
    let mut i: usize = 0;
    while i < n
        invariant
            n == resp.data@.len(),
            i <= n,
            plan@.len() == i,
            forall|k: int|
                0 <= k < i ==> (#[trigger] plan@[k]).0@ == resp.data@[k].path@ && plan@[k].1@
                    == dir@ + "/"@ + last_segment(resp.data@[k].path@),
        decreases n - i,
    {
        let w = &resp.data[i];
        let name = url_file_name(w.path.as_str());
        let mut dest = String::from_str(dir);
        push_char(&mut dest, '/');
        let dest = dest.concat(name.as_str());
        proof {
            reveal_strlit("/");
            assert(dest@ =~= dir@ + "/"@ + last_segment(resp.data@[i as int].path@));
        }
        plan.push((w.path.clone(), dest));
        i = i + 1;
    }
    plan
}

} // verus!
