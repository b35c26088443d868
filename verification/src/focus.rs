//! Focus snapshots: the plain values a trigger works on, normalized from the
//! raw window title and process image path the OS accessors hand over.  The
//! executable name is the path's final component, the application name is
//! that name without its ".exe" suffix, and the fallback identifier is the
//! `app:title:exe` string applied when enumeration turns up no candidate.

use vstd::prelude::*;
use vstd::string::StrSliceExecFns;
use vstd::string::StringExecFns;

verus! {

/// A path separator, as process image paths use them.
pub open spec fn is_path_separator(c: char) -> bool {
    c == '/' || c == '\\'
}

/// The text after the last path separator; the whole text when it has none.
pub open spec fn after_last_separator(path: Seq<char>) -> Seq<char>
    decreases path.len(),
{
    if path.len() == 0 {
        path
    } else if is_path_separator(path.last()) {
        Seq::empty()
    } else {
        after_last_separator(path.drop_last()).push(path.last())
    }
}

proof fn lemma_after_last_separator_subrange(path: Seq<char>, cut: int)
    requires
        0 <= cut <= path.len(),
        forall|j: int| cut <= j < path.len() ==> !is_path_separator(#[trigger] path[j]),
        cut > 0 ==> is_path_separator(path[cut - 1]),
    ensures
        after_last_separator(path) == path.subrange(cut, path.len() as int),
    decreases path.len(),
{
    if path.len() == cut {
        assert(after_last_separator(path) =~= path.subrange(cut, path.len() as int));
    } else {
        assert(!is_path_separator(path.last()));
        let front = path.drop_last();
        assert(forall|j: int| cut <= j < front.len() ==> !is_path_separator(#[trigger] front[j]));
        lemma_after_last_separator_subrange(front, cut);
        assert(after_last_separator(path) =~= path.subrange(cut, path.len() as int));
    }
}

/// The path without its trailing separators, which name no component.
pub open spec fn without_trailing_separators(path: Seq<char>) -> Seq<char>
    decreases path.len(),
{
    if path.len() > 0 && is_path_separator(path.last()) {
        without_trailing_separators(path.drop_last())
    } else {
        path
    }
}

proof fn lemma_without_trailing_separators_take(path: Seq<char>, stop: int)
    requires
        0 <= stop <= path.len(),
        forall|j: int| stop <= j < path.len() ==> is_path_separator(#[trigger] path[j]),
        stop > 0 ==> !is_path_separator(path[stop - 1]),
    ensures
        without_trailing_separators(path) == path.take(stop),
    decreases path.len(),
{
    if path.len() == stop {
        assert(without_trailing_separators(path) =~= path.take(stop));
    } else {
        assert(is_path_separator(path.last()));
        let front = path.drop_last();
        assert(forall|j: int| stop <= j < front.len() ==> is_path_separator(#[trigger] front[j]));
        lemma_without_trailing_separators_take(front, stop);
        assert(front.take(stop) =~= path.take(stop));
    }
}

/// The path's final component: the text after the last separator, once
/// trailing separators are ignored.
fn file_name_part(path: &str) -> (name: String)
    ensures
        name@ == after_last_separator(without_trailing_separators(path@)),
{
    let n = path.unicode_len();
    let mut stop: usize = n;
    let mut trimming = true;
    while trimming && stop > 0
        invariant
            n == path@.len(),
            stop <= n,
            forall|j: int| stop <= j < n ==> is_path_separator(#[trigger] path@[j]),
            !trimming ==> stop > 0 && !is_path_separator(path@[stop - 1]),
        decreases stop + (if trimming {
            1int
        } else {
            0int
        }),
    {
        let c = path.get_char(stop - 1);
        if c == '/' || c == '\\' {
            stop -= 1;
        } else {
            trimming = false;
        }
    }
    proof {
        lemma_without_trailing_separators_take(path@, stop as int);
    }
    let mut cut: usize = stop;
    let mut scanning = true;
    while scanning && cut > 0
        invariant
            n == path@.len(),
            cut <= stop <= n,
            forall|j: int| cut <= j < stop ==> !is_path_separator(#[trigger] path@[j]),
            !scanning ==> cut > 0 && is_path_separator(path@[cut - 1]),
        decreases cut + (if scanning {
            1int
        } else {
            0int
        }),
    {
        let c = path.get_char(cut - 1);
        if c == '/' || c == '\\' {
            scanning = false;
        } else {
            cut -= 1;
        }
    }
    proof {
        let trimmed = path@.take(stop as int);
        assert(forall|j: int|
            cut <= j < trimmed.len() ==> !is_path_separator(#[trigger] trimmed[j]));
        lemma_after_last_separator_subrange(trimmed, cut as int);
        assert(trimmed.subrange(cut as int, stop as int) =~= path@.subrange(
            cut as int,
            stop as int,
        ));
    }
    let tail = path.substring_char(cut, stop);
    String::from_str(tail)
}

/// The name with its ".exe" extension stripped, once: a name such as
/// `tool.exe.exe` keeps its inner occurrence.
pub open spec fn strip_exe_suffix(name: Seq<char>) -> Seq<char> {
    if name.len() >= 4 && name.subrange(name.len() - 4, name.len() as int) == ".exe"@ {
        name.subrange(0, name.len() - 4)
    } else {
        name
    }
}

/// Removes the trailing ".exe", if the name has one.
fn strip_executable_suffix(name: &str) -> (app: String)
    ensures
        app@ == strip_exe_suffix(name@),
{
    let n = name.unicode_len();
    proof {
        reveal_strlit(".exe");
    }
    let suffix_matches = n >= 4 && name.get_char(n - 4) == '.' && name.get_char(n - 3) == 'e'
        && name.get_char(n - 2) == 'x' && name.get_char(n - 1) == 'e';
    if suffix_matches {
        proof {
            assert(name@.subrange(n - 4, n as int) =~= ".exe"@);
        }
        let app = name.substring_char(0, n - 4);
        String::from_str(app)
    } else {
        proof {
            if n >= 4 {
                assert(name@.subrange(n - 4, n as int) != ".exe"@) by {
                    if name@.subrange(n - 4, n as int) == ".exe"@ {
                        assert(name@.subrange(n - 4, n as int)[0] == name@[n - 4]);
                        assert(name@.subrange(n - 4, n as int)[1] == name@[n - 3]);
                        assert(name@.subrange(n - 4, n as int)[2] == name@[n - 2]);
                        assert(name@.subrange(n - 4, n as int)[3] == name@[n - 1]);
                    }
                }
            }
        }
        String::from_str(name)
    }
}

/// A whitespace character, as the Unicode `White_Space` property lists them.
pub open spec fn is_space_char(c: char) -> bool {
    let u = c as u32;
    ||| u == 0x20
    ||| (0x09 <= u && u <= 0x0D)
    ||| u == 0x85
    ||| u == 0xA0
    ||| u == 0x1680
    ||| (0x2000 <= u && u <= 0x200A)
    ||| u == 0x2028
    ||| u == 0x2029
    ||| u == 0x202F
    ||| u == 0x205F
    ||| u == 0x3000
}

/// Nothing but whitespace, or nothing at all.
pub open spec fn is_blank(s: Seq<char>) -> bool {
    forall|i: int| 0 <= i < s.len() ==> is_space_char(#[trigger] s[i])
}

fn char_is_space(c: char) -> (space: bool)
    ensures
        space == is_space_char(c),
{
    let u = c as u32;
    u == 0x20 || (0x09 <= u && u <= 0x0D) || u == 0x85 || u == 0xA0 || u == 0x1680 || (0x2000 <= u
        && u <= 0x200A) || u == 0x2028 || u == 0x2029 || u == 0x202F || u == 0x205F || u == 0x3000
}

/// True when the title trims to nothing; such a focus is unusable and the
/// trigger is abandoned silently.
pub fn title_is_blank(title: &str) -> (blank: bool)
    ensures
        blank == is_blank(title@),
{
    let n = title.unicode_len();
    let mut i: usize = 0;
    while i < n
        invariant
            n == title@.len(),
            i <= n,
            forall|j: int| 0 <= j < i ==> is_space_char(#[trigger] title@[j]),
        decreases n - i,
    {
        if !char_is_space(title.get_char(i)) {
            return false;
        }
        i += 1;
    }
    true
}

/// The effective executable name: the image path's final component, with
/// trailing separators ignored, or "unknown.exe" when the path has no
/// component at all (it is empty or nothing but separators).
pub open spec fn effective_exe_name(path: Seq<char>) -> Seq<char> {
    let name = after_last_separator(without_trailing_separators(path));
    if name.len() == 0 {
        "unknown.exe"@
    } else {
        name
    }
}

/// The fallback identifier `app:title:exe` applied when enumeration lists no
/// candidate for the executable.
pub open spec fn fallback_text(exe_name: Seq<char>, title: Seq<char>) -> Seq<char> {
    strip_exe_suffix(exe_name) + ":"@ + title + ":"@ + exe_name
}

/// A point-in-time description of the focused window: produced fresh on
/// every trigger, never persisted.
pub struct FocusSnapshot {
    /// The focused process's executable name, e.g. `Spotify.exe`.
    pub exe_name: String,
    /// The focused window's title, untrimmed.
    pub title: String,
    /// The identifier applied when enumeration lists no candidate.
    pub fallback: String,
}

/// Builds the snapshot for one trigger from the raw window title and the
/// focused process's image path; `None` when the title is blank.
pub fn focus_snapshot(image_path: &str, title: &str) -> (snapshot: Option<FocusSnapshot>)
    ensures
        match snapshot {
            Option::None => is_blank(title@),
            Option::Some(snap) => {
                &&& !is_blank(title@)
                &&& snap.title@ == title@
                &&& snap.exe_name@ == effective_exe_name(image_path@)
                &&& snap.fallback@ == fallback_text(snap.exe_name@, title@)
            },
        },
{
    if title_is_blank(title) {
        return None;
    }
    let mut exe_name = file_name_part(image_path);
    if exe_name.as_str().unicode_len() == 0 {
        exe_name = String::from_str("unknown.exe");
    }
    let mut fallback = strip_executable_suffix(exe_name.as_str());
    fallback.append(":");
    fallback.append(title);
    fallback.append(":");
    fallback.append(exe_name.as_str());
    proof {
        assert(fallback@ =~= fallback_text(exe_name@, title@));
    }
    Some(FocusSnapshot { exe_name, title: String::from_str(title), fallback })
}

} // verus!
