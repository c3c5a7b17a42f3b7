//! Default values of the user settings.
use vstd::prelude::*;

use crate::text::{copy_str, push_char};

verus! {

pub fn default_false() -> (r: bool)
    ensures
        !r,
{
    false
}

pub fn default_true() -> (r: bool)
    ensures
        r,
{
    true
}

/// Seconds between two live checks.
pub fn default_loop_time() -> (r: u64)
    ensures
        r == 300,
{
    300
}

/// Requests a platform may have in flight at once.
pub fn default_concurrent() -> (r: u32)
    ensures
        r == 3,
{
    3
}

/// Seconds between two repeated notifications.
pub fn default_notify_loop_time() -> (r: u64)
    ensures
        r == 600,
{
    600
}

/// The interface language code.
pub fn default_language() -> (r: String)
    ensures
        r@ == "zh_CN"@,
{
    copy_str("zh_CN")
}

/// `base` joined with `comp` by the rules of `Path::join` on Unix: an
/// absolute `comp` replaces `base`; otherwise a separator is put between
/// them unless `base` is empty or already ends with one.
pub open spec fn path_join(base: Seq<char>, comp: Seq<char>) -> Seq<char> {
    if comp.len() > 0 && comp[0] == '/' {
        comp
    } else if base.len() == 0 || base.last() == '/' {
        base + comp
    } else {
        base + seq!['/'] + comp
    }
}

/// Joins a component onto a path.
pub fn join_path(base: &str, comp: &str) -> (r: String)
    ensures
        r@ == path_join(base@, comp@),
{
    if comp.unicode_len() > 0 && comp.get_char(0) == '/' {
        return copy_str(comp);
    }
    let mut r = copy_str(base);
    let n = base.unicode_len();
    if n > 0 && base.get_char(n - 1) != '/' {
        push_char(&mut r, '/');
    }
    r.append(comp);
    r
}

/// The default directory for recordings: `<home>/Videos/StreamCap` when the
/// home directory is known, `./Videos` otherwise.
pub open spec fn spec_video_save_path(home: Option<Seq<char>>) -> Seq<char> {
    match home {
        Some(h) => path_join(path_join(h, "Videos"@), "StreamCap"@),
        None => "./Videos"@,
    }
}

/// The default directory for recordings, given the home directory.
pub fn default_video_save_path(home: Option<&str>) -> (r: String)
    ensures
        r@ == spec_video_save_path(
            match home {
                Some(h) => Some(h@),
                None => None,
            },
        ),
{
    proof {
        reveal_strlit("Videos");
        reveal_strlit("StreamCap");
    }
    match home {
        Some(h) => {
            let videos = join_path(h, "Videos");
            join_path(videos.as_str(), "StreamCap")
        },
        None => copy_str("./Videos"),
    }
}

} // verus!
