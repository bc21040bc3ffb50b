//! Paths as text, compared the way the file system reads them.

use vstd::prelude::*;
use vstd::string::*;

use crate::reading;
use crate::text;
use crate::text::{
    chars_of, chars_start_with, digits_from, is_white_space, opt_is, same_texts, text_of_chars,
};

verus! {

/// The segments read so far, and the one that is being read.
pub struct PathReading {
    pub done: Seq<Seq<char>>,
    pub current: Seq<char>,
}

/// Adds a finished segment. Empty segments and `.` name nothing.
pub open spec fn with_segment(done: Seq<Seq<char>>, segment: Seq<char>) -> Seq<Seq<char>> {
    if segment.len() == 0 || segment == seq!['.'] {
        done
    } else {
        done.push(segment)
    }
}

pub open spec fn read_path(s: Seq<char>) -> PathReading
    decreases s.len(),
{
    if s.len() == 0 {
        PathReading { done: Seq::empty(), current: Seq::empty() }
    } else {
        let before = read_path(s.drop_last());
        if s.last() == '/' {
            PathReading {
                done: with_segment(before.done, before.current),
                current: Seq::empty(),
            }
        } else {
            PathReading { done: before.done, current: before.current.push(s.last()) }
        }
    }
}

/// The segments of a path that name something.
pub open spec fn path_segments(s: Seq<char>) -> Seq<Seq<char>> {
    with_segment(read_path(s).done, read_path(s).current)
}

pub open spec fn is_absolute_path(s: Seq<char>) -> bool {
    s.len() > 0 && s[0] == '/'
}

/// The path starts with the segment `.`.
pub open spec fn starts_at_current_directory(s: Seq<char>) -> bool {
    s.len() > 0 && s[0] == '.' && (s.len() == 1 || s[1] == '/')
}

/// Two paths have the same components.
pub open spec fn paths_agree(a: Seq<char>, b: Seq<char>) -> bool {
    &&& is_absolute_path(a) == is_absolute_path(b)
    &&& starts_at_current_directory(a) == starts_at_current_directory(b)
    &&& path_segments(a) == path_segments(b)
}

/// The last segment of a path, unless it leads to a parent directory.
pub open spec fn path_file_name(s: Seq<char>) -> Option<Seq<char>> {
    let segments = path_segments(s);
    if segments.len() == 0 || segments.last() == seq!['.', '.'] {
        None
    } else {
        Some(segments.last())
    }
}

fn finish_segment(done: &mut Vec<String>, segment: String)
    ensures
        text::texts(final(done)@) == with_segment(text::texts(old(done)@), segment@),
{
    let chars = chars_of(segment.as_str());
    let dot = chars.len() == 1 && chars[0] == '.';
    proof {
        if dot {
            assert(segment@ =~= seq!['.']);
        }
    }
    if chars.len() == 0 || dot {
        return;
    }
    let ghost before = text::texts(done@);
    done.push(segment);
    assert(text::texts(done@) =~= before.push(segment@));
}

/// The segments of a path that name something.
pub fn segments_of(path: &str) -> (segments: Vec<String>)
    ensures
        text::texts(segments@) == path_segments(path@),
{
    let chars = chars_of(path);
    let mut done: Vec<String> = Vec::new();
    let mut current = String::new();
    let mut i: usize = 0;
    assert(path@.take(0) =~= Seq::empty());
    assert(text::texts(done@) =~= Seq::empty());
    while i < chars.len()
        invariant
            i <= chars@.len(),
            chars@ == path@,
            text::texts(done@) == read_path(path@.take(i as int)).done,
            current@ == read_path(path@.take(i as int)).current,
        decreases chars@.len() - i,
    {
        let c = chars[i];
        proof {
            assert(path@.take(i + 1).drop_last() =~= path@.take(i as int));
            assert(path@.take(i + 1).last() == c);
        }
        if c == '/' {
            finish_segment(&mut done, current);
            current = String::new();
        } else {
            current.push(c);
        }
        i += 1;
    }
    assert(path@.take(path@.len() as int) =~= path@);
    finish_segment(&mut done, current);
    done
}

/// Whether a path is absolute.
pub fn absolute_path(path: &str) -> (yes: bool)
    ensures
        yes == is_absolute_path(path@),
{
    let chars = chars_of(path);
    chars.len() > 0 && chars[0] == '/'
}

/// Whether two paths have the same components.
pub fn same_path(a: &str, b: &str) -> (same: bool)
    ensures
        same == paths_agree(a@, b@),
{
    let left = chars_of(a);
    let right = chars_of(b);
    let left_dot = left.len() > 0 && left[0] == '.' && (left.len() == 1 || left[1] == '/');
    let right_dot = right.len() > 0 && right[0] == '.' && (right.len() == 1 || right[1] == '/');
    absolute_path(a) == absolute_path(b) && left_dot == right_dot && same_texts(
        &segments_of(a),
        &segments_of(b),
    )
}

/// The file name of a path.
pub fn file_name(path: &str) -> (name: Option<String>)
    ensures
        text::opt_text(name) == path_file_name(path@),
{
    let segments = segments_of(path);
    if segments.len() == 0 {
        assert(text::texts(segments@).len() == 0);
        return None;
    }
    let last = &segments[segments.len() - 1];
    assert(path_segments(path@).last() == last@);
    let chars = chars_of(last.as_str());
    if chars.len() == 2 && chars[0] == '.' && chars[1] == '.' {
        assert(last@ =~= seq!['.', '.']);
        return None;
    }
    assert(last@ != seq!['.', '.']);
    Some(last.clone())
}

/// Whether the file name of a path is `name`.
pub fn file_name_is(path: &str, name: &str) -> (yes: bool)
    ensures
        yes == (path_file_name(path@) == Some(name@)),
{
    opt_is(&file_name(path), name)
}

/// The digits of a loop device path, for one that is a whole loop device.
pub open spec fn is_loop_path(s: Seq<char>) -> bool {
    let prefix = "/dev/loop"@;
    &&& text::has_prefix(s, prefix)
    &&& s.len() > prefix.len()
    &&& text::all_digits(s.subrange(prefix.len() as int, s.len() as int))
}

/// Whether a path names a whole loop device.
pub fn valid_loop_path(value: &str) -> (yes: bool)
    ensures
        yes == is_loop_path(value@),
{
    let chars = chars_of(value);
    let prefix = chars_of("/dev/loop");
    chars_start_with(&chars, &prefix) && chars.len() > prefix.len() && digits_from(
        &chars,
        prefix.len(),
    )
}

/// The text without white space at its start.
pub open spec fn trim_start_text(s: Seq<char>) -> Seq<char>
    decreases s.len(),
{
    if s.len() > 0 && text::is_white_space_char(s[0]) {
        trim_start_text(s.subrange(1, s.len() as int))
    } else {
        s
    }
}

/// The text without white space at its end.
pub open spec fn trim_end_text(s: Seq<char>) -> Seq<char>
    decreases s.len(),
{
    if s.len() > 0 && text::is_white_space_char(s.last()) {
        trim_end_text(s.drop_last())
    } else {
        s
    }
}

/// The text without white space at either end.
pub open spec fn trimmed_text(s: Seq<char>) -> Seq<char> {
    trim_end_text(trim_start_text(s))
}

/// The text without white space at either end.
pub fn trimmed(s: &str) -> (text: String)
    ensures
        text@ == trimmed_text(s@),
{
    let chars = chars_of(s);
    let mut from: usize = 0;
    assert(s@.subrange(0, s@.len() as int) =~= s@);
    while from < chars.len() && is_white_space(chars[from])
        invariant
            from <= chars@.len(),
            chars@ == s@,
            trim_start_text(s@.subrange(from as int, s@.len() as int)) == trim_start_text(s@),
        decreases chars@.len() - from,
    {
        let ghost rest = s@.subrange(from as int, s@.len() as int);
        assert(rest.subrange(1, rest.len() as int) =~= s@.subrange(from + 1, s@.len() as int));
        from += 1;
    }
    let mut to: usize = chars.len();
    let ghost rest = s@.subrange(from as int, s@.len() as int);
    assert(rest == trim_start_text(s@));
    while from < to && is_white_space(chars[to - 1])
        invariant
            from <= to <= chars@.len(),
            chars@ == s@,
            trim_end_text(s@.subrange(from as int, to as int)) == trimmed_text(s@),
        decreases to,
    {
        let ghost part = s@.subrange(from as int, to as int);
        assert(part.drop_last() =~= s@.subrange(from as int, to - 1));
        to -= 1;
    }
    text_of_chars(&chars, from, to)
}

proof fn lemma_read_behind(a: Seq<char>, b: Seq<char>)
    ensures
        ({
            let front = read_path(a);
            let back = read_path(b);
            let whole = read_path(a + seq!['/'] + b);
            &&& whole.current == back.current
            &&& whole.done == with_segment(front.done, front.current) + back.done
        }),
    decreases b.len(),
{
    let s = a + seq!['/'] + b;
    if b.len() == 0 {
        assert(s.drop_last() =~= a);
        assert(s.last() == '/');
        assert(read_path(s).done =~= path_segments(a) + read_path(b).done);
    } else {
        lemma_read_behind(a, b.drop_last());
        assert(s.drop_last() =~= a + seq!['/'] + b.drop_last());
        assert(s.last() == b.last());
        let back = read_path(b.drop_last());
        if b.last() == '/' {
            let done = path_segments(a) + back.done;
            assert(with_segment(done, back.current) =~= path_segments(a) + with_segment(
                back.done,
                back.current,
            ));
        }
        assert(read_path(s).done =~= path_segments(a) + read_path(b).done);
    }
}

/// The segments of a path are those in front of any of its slashes and then those behind it.
pub proof fn segments_are_set_apart_by_slashes(a: Seq<char>, b: Seq<char>)
    ensures
        path_segments(a + seq!['/'] + b) == path_segments(a) + path_segments(b),
{
    lemma_read_behind(a, b);
    let back = read_path(b);
    assert(with_segment(path_segments(a) + back.done, back.current) =~= path_segments(a)
        + with_segment(back.done, back.current));
}

/// A text without a slash is one segment, unless it is empty or a single dot: then it names
/// nothing.
pub proof fn plain_name_is_one_segment(s: Seq<char>)
    requires
        !s.contains('/'),
    ensures
        s.len() > 0 && s != seq!['.'] ==> path_segments(s) == seq![s],
        s.len() == 0 || s == seq!['.'] ==> path_segments(s).len() == 0,
{
    lemma_read_plain(s);
    if s.len() > 0 && s != seq!['.'] {
        assert(path_segments(s) =~= seq![s]);
    }
}

proof fn lemma_read_plain(s: Seq<char>)
    requires
        !s.contains('/'),
    ensures
        read_path(s).done == Seq::<Seq<char>>::empty(),
        read_path(s).current == s,
    decreases s.len(),
{
    if s.len() > 0 {
        assert forall|i: int| 0 <= i < s.len() - 1 implies s.drop_last()[i] != '/' by {
            assert(s.contains(s[i]));
        }
        assert(s.contains(s.last()));
        lemma_read_plain(s.drop_last());
        assert(read_path(s).current =~= s);
    } else {
        assert(read_path(s).current =~= s);
    }
}

/// Every character is white space.
pub open spec fn is_blank(s: Seq<char>) -> bool {
    forall|i: int| 0 <= i < s.len() ==> text::is_white_space_char(#[trigger] s[i])
}

/// Trimming takes the white space from both ends and nothing else.
pub proof fn trimming_takes_the_white_space_from_both_ends(
    front: Seq<char>,
    middle: Seq<char>,
    back: Seq<char>,
)
    requires
        is_blank(front),
        is_blank(back),
        middle.len() > 0,
        !text::is_white_space_char(middle[0]),
        !text::is_white_space_char(middle[middle.len() - 1]),
    ensures
        trimmed_text(front + middle + back) == middle,
        trimmed_text(front).len() == 0,
{
    lemma_trim_front(front, middle + back);
    assert(front + middle + back =~= front + (middle + back));
    lemma_trim_back(middle, back);
    lemma_trim_front(front, Seq::empty());
    assert(front =~= front + Seq::<char>::empty());
}

proof fn lemma_trim_front(front: Seq<char>, rest: Seq<char>)
    requires
        is_blank(front),
        rest.len() > 0 ==> !text::is_white_space_char(rest[0]),
    ensures
        trim_start_text(front + rest) == rest,
    decreases front.len(),
{
    let s = front + rest;
    if front.len() > 0 {
        let tail = front.subrange(1, front.len() as int);
        assert(text::is_white_space_char(front[0]));
        assert forall|i: int| 0 <= i < tail.len() implies text::is_white_space_char(
            #[trigger] tail[i],
        ) by {
            assert(tail[i] == front[i + 1]);
        }
        lemma_trim_front(tail, rest);
        assert(s.subrange(1, s.len() as int) =~= tail + rest);
    } else {
        assert(s =~= rest);
    }
}

proof fn lemma_trim_back(middle: Seq<char>, back: Seq<char>)
    requires
        is_blank(back),
        middle.len() > 0,
        !text::is_white_space_char(middle[middle.len() - 1]),
    ensures
        trim_end_text(middle + back) == middle,
    decreases back.len(),
{
    let s = middle + back;
    if back.len() > 0 {
        assert(text::is_white_space_char(back[back.len() - 1]));
        assert forall|i: int| 0 <= i < back.drop_last().len() implies text::is_white_space_char(
            #[trigger] back.drop_last()[i],
        ) by {
            assert(back.drop_last()[i] == back[i]);
        }
        lemma_trim_back(middle, back.drop_last());
        assert(s.drop_last() =~= middle + back.drop_last());
    } else {
        assert(s =~= middle);
    }
}

/// A whole loop device is `/dev/loop` and a row of digits.
pub proof fn loop_device_is_numbered(s: Seq<char>)
    ensures
        is_loop_path(s) <==> exists|digits: Seq<char>|
            #[trigger] reading::is_digit_row(digits) && s == "/dev/loop"@ + digits,
{
    let prefix = "/dev/loop"@;
    if is_loop_path(s) {
        let digits = s.subrange(prefix.len() as int, s.len() as int);
        reading::digits_are_read_as_their_number(digits);
        assert(s =~= prefix + digits);
        assert(reading::is_digit_row(digits));
    }
    if exists|digits: Seq<char>| #[trigger] reading::is_digit_row(digits) && s == "/dev/loop"@ + digits {
        let digits = choose|digits: Seq<char>| #[trigger] reading::is_digit_row(digits) && s == prefix + digits;
        reading::digits_are_read_as_their_number(digits);
        assert(s.subrange(0, prefix.len() as int) =~= prefix);
        assert(s.subrange(prefix.len() as int, s.len() as int) =~= digits);
    }
}

/// The file name of an entry of a directory is the name of the entry; `..` is no file name.
pub proof fn file_name_is_the_last_segment(directory: Seq<char>, name: Seq<char>)
    requires
        !name.contains('/'),
        name.len() > 0,
        name != seq!['.'],
    ensures
        name != seq!['.', '.'] ==> path_file_name(directory + seq!['/'] + name) == Some(name),
        name == seq!['.', '.'] ==> path_file_name(directory + seq!['/'] + name) is None,
{
    segments_are_set_apart_by_slashes(directory, name);
    plain_name_is_one_segment(name);
    assert((path_segments(directory) + seq![name]).last() == name);
}

} // verus!
