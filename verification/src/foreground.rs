//! Whether the emulator is the foreground window. Sampling the foreground process is the
//! application's part (it costs three system calls, far too much for every mouse
//! event); naming the process and deciding whether it is the target happens here.

use vstd::prelude::*;

verus! {

/// BlueStacks 5 / MSI player.
pub const DEFAULT_TARGET_EXE: &'static str = "hd-player.exe";

/// How often the foreground window is sampled, in milliseconds.
pub const SAMPLE_INTERVAL_MS: u64 = 200;

pub open spec fn is_separator(c: char) -> bool {
    c == '\\' || c == '/'
}

/// What follows the last `\` or `/` of a path: the whole path when it has none.
pub open spec fn last_segment(s: Seq<char>) -> Seq<char>
    decreases s.len(),
{
    if s.len() == 0 {
        s
    } else if is_separator(s.last()) {
        seq![]
    } else {
        last_segment(s.drop_last()).push(s.last())
    }
}

/// A character's code with ASCII upper-case letters taken to lower case.
pub open spec fn ascii_lower_code(c: char) -> int {
    if 'A' <= c && c <= 'Z' {
        c as int + 32
    } else {
        c as int
    }
}

/// Equal texts when ASCII letters are compared without case.
pub open spec fn eq_ignoring_ascii_case(a: Seq<char>, b: Seq<char>) -> bool {
    a.len() == b.len() && forall|i: int| 0 <= i < a.len() ==> #[trigger] ascii_lower_code(a[i])
        == ascii_lower_code(b[i])
}

/// Whether the emulator has focus: `*` stands for every window, which is useful for an
/// emulator of unknown name and is how pointer precision is measured without depending
/// on what has focus.
pub open spec fn focused_on(target: Seq<char>, seen: Option<Seq<char>>) -> bool {
    target == seq!['*'] || (seen matches Some(name) && eq_ignoring_ascii_case(name, target))
}

fn lower_code(c: char) -> (code: u32)
    ensures
        code == ascii_lower_code(c),
{
    let v = c as u32;
    if 65 <= v && v <= 90 {
        v + 32
    } else {
        v
    }
}

/// `str::eq_ignore_ascii_case`, character by character.
pub fn eq_ignore_ascii_case(a: &str, b: &str) -> (equal: bool)
    ensures
        equal == eq_ignoring_ascii_case(a@, b@),
{
    let n = a.unicode_len();
    if n != b.unicode_len() {
        return false;
    }
    let mut i: usize = 0;
    while i < n
        invariant
            n == a@.len(),
            n == b@.len(),
            i <= n,
            forall|j: int| 0 <= j < i ==> #[trigger] ascii_lower_code(a@[j]) == ascii_lower_code(
                b@[j],
            ),
        decreases n - i,
    {
        if lower_code(a.get_char(i)) != lower_code(b.get_char(i)) {
            return false;
        }
        i = i + 1;
    }
    true
}

/// Whether the emulator is in the foreground, given the executable name of the
/// foreground process when it could be read.
pub fn is_focused(target: &str, seen: Option<&str>) -> (focused: bool)
    ensures
        focused == focused_on(target@, match seen {
            Some(s) => Some(s@),
            None => None,
        }),
{
    let star = target.unicode_len() == 1 && target.get_char(0) == '*';
    assert(star <==> target@ == seq!['*']) by {
        if target@ == seq!['*'] {
            assert(target@[0] == '*');
        }
        if star {
            assert(target@ =~= seq!['*']);
        }
    }
    if star {
        return true;
    }
    match seen {
        Some(name) => eq_ignore_ascii_case(name, target),
        None => false,
    }
}

proof fn lemma_last_segment_split(s: Seq<char>, i: int)
    requires
        0 <= i <= s.len(),
        forall|j: int| i <= j < s.len() ==> !is_separator(#[trigger] s[j]),
    ensures
        last_segment(s) == last_segment(s.take(i)) + s.subrange(i, s.len() as int),
    decreases s.len() - i,
{
    if i == s.len() {
        assert(s.take(i) == s);
        assert(s.subrange(i, s.len() as int) =~= seq![]);
    } else {
        let d = s.drop_last();
        lemma_last_segment_split(d, i);
        assert(d.take(i) == s.take(i));
        assert(d.subrange(i, d.len() as int).push(s.last()) =~= s.subrange(i, s.len() as int));
    }
}

/// The executable name in a full process image path.
pub fn exe_name(full: &str) -> (name: String)
    ensures
        name@ == last_segment(full@),
{
    let n = full.unicode_len();
    let mut i: usize = n;
    while i > 0 && !(full.get_char(i - 1) == '\\' || full.get_char(i - 1) == '/')
        invariant
            n == full@.len(),
            i <= n,
            forall|j: int| i <= j < n ==> !is_separator(#[trigger] full@[j]),
        decreases i,
    {
        i = i - 1;
    }
    proof {
        lemma_last_segment_split(full@, i as int);
        if i == 0 {
            assert(full@.take(0) =~= seq![]);
        } else {
            let t = full@.take(i as int);
            assert(t.last() == full@[i - 1]);
        }
    }
    String::from_str(full.substring_char(i, n))
}

/// The executable name is what ends the path, and holds no separator of its own.
pub proof fn lemma_exe_name_is_a_separator_free_suffix(s: Seq<char>)
    ensures
        last_segment(s).len() <= s.len(),
        last_segment(s) == s.subrange(s.len() - last_segment(s).len(), s.len() as int),
        forall|i: int| 0 <= i < last_segment(s).len() ==> !is_separator(#[trigger] last_segment(s)[i]),
    decreases s.len(),
{
    if s.len() == 0 {
        assert(s.subrange(0, 0) =~= s);
    } else if is_separator(s.last()) {
        assert(s.subrange(s.len() as int, s.len() as int) =~= seq![]);
    } else {
        let d = s.drop_last();
        lemma_exe_name_is_a_separator_free_suffix(d);
        let t = last_segment(d);
        assert(t.push(s.last()) =~= s.subrange(s.len() - (t.len() + 1), s.len() as int));
        assert forall|i: int| 0 <= i < t.len() + 1 implies !is_separator(#[trigger] t.push(s.last())[i]) by {
            if i < t.len() {
                assert(t.push(s.last())[i] == t[i]);
            }
        }
    }
}

} // verus!
