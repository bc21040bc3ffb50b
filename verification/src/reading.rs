//! What a reader finds in an identity: entries that are there and are the only ones, texts that read
//! alike, numbers that are spelled out.

use vstd::prelude::*;

use crate::model;
use crate::text;
use crate::model::{
    DeviceIdentity, LvmIdentity, LvmIdentityKind, MountIdentity, PartitionGeometryIdentity,
};

verus! {

/// The entry at `i` is the only one that is kept.
pub open spec fn only_kept_at<T>(items: Seq<T>, keep: spec_fn(T) -> bool, i: int) -> bool {
    &&& 0 <= i < items.len()
    &&& forall|j: int| 0 <= j < items.len() ==> (keep(#[trigger] items[j]) <==> j == i)
}

/// A search that keeps nothing finds nothing that answers to it.
pub proof fn lemma_none_kept<T>(items: Seq<T>, keep: spec_fn(T) -> bool)
    ensures
        items.filter(keep).len() == 0 <==> forall|j: int|
            0 <= j < items.len() ==> !keep(#[trigger] items[j]),
    decreases items.len(),
{
    reveal(Seq::filter);
    if items.len() > 0 {
        let before = items.drop_last();
        lemma_none_kept(before, keep);
        if items.filter(keep).len() == 0 {
            assert forall|j: int| 0 <= j < items.len() implies !keep(#[trigger] items[j]) by {
                if j < before.len() {
                    assert(!keep(before[j]));
                }
            }
        } else if forall|j: int| 0 <= j < items.len() ==> !keep(#[trigger] items[j]) {
            assert(!keep(items[items.len() - 1]));
            assert forall|j: int| 0 <= j < before.len() implies !keep(#[trigger] before[j]) by {
                assert(!keep(items[j]));
            }
        }
    }
}

/// A search that keeps one entry keeps the only one that answers to it.
pub proof fn lemma_one_kept<T>(items: Seq<T>, keep: spec_fn(T) -> bool)
    ensures
        items.filter(keep).len() == 1 <==> exists|i: int| only_kept_at(items, keep, i),
        forall|i: int| #[trigger]
            only_kept_at(items, keep, i) ==> items.filter(keep) == seq![items[i]],
    decreases items.len(),
{
    reveal(Seq::filter);
    let kept = items.filter(keep);
    if items.len() > 0 {
        let before = items.drop_last();
        let last = items.len() - 1;
        lemma_one_kept(before, keep);
        lemma_none_kept(before, keep);
        if kept.len() == 1 {
            if keep(items.last()) {
                assert forall|j: int| 0 <= j < items.len() implies (keep(#[trigger] items[j]) <==> j
                    == last) by {
                    if j < last {
                        assert(!keep(before[j]));
                    }
                }
                assert(only_kept_at(items, keep, last));
            } else {
                let i = choose|i: int| only_kept_at(before, keep, i);
                assert forall|j: int| 0 <= j < items.len() implies (keep(#[trigger] items[j]) <==> j
                    == i) by {
                    if j < last {
                        assert(items[j] == before[j]);
                    }
                }
                assert(only_kept_at(items, keep, i));
            }
        }
        assert forall|i: int| #[trigger] only_kept_at(items, keep, i) implies kept == seq![
            items[i],
        ] by {
            assert(keep(items[i]));
            if i == last {
                assert forall|j: int| 0 <= j < before.len() implies !keep(#[trigger] before[j]) by {
                    assert(items[j] == before[j]);
                }
                assert(before.filter(keep) =~= Seq::empty());
                assert(kept =~= seq![items[i]]);
            } else {
                assert(!keep(items[last]));
                assert forall|j: int| 0 <= j < before.len() implies (keep(#[trigger] before[j])
                    <==> j == i) by {
                    assert(items[j] == before[j]);
                }
                assert(only_kept_at(before, keep, i));
                assert(before[i] == items[i]);
            }
        }
    }
}

/// Searches that keep the same entries find the same.
pub proof fn lemma_same_search<T>(items: Seq<T>, keep: spec_fn(T) -> bool)
    ensures
        forall|other: spec_fn(T) -> bool|
            (forall|e: T| #[trigger] other(e) <==> keep(e)) ==> #[trigger] items.filter(other)
                == items.filter(keep),
{
    assert forall|other: spec_fn(T) -> bool|
        (forall|e: T| #[trigger] other(e) <==> keep(e)) implies #[trigger] items.filter(other)
        == items.filter(keep) by {
        assert(other =~= keep);
    }
}

/// The text that may be absent is there and reads like this.
pub open spec fn reads(item: Option<String>, s: Seq<char>) -> bool {
    match item {
        Some(t) => t@ == s,
        None => false,
    }
}

/// Two texts that may be absent are both absent or read alike.
pub open spec fn read_alike(a: Option<String>, b: Option<String>) -> bool {
    match (a, b) {
        (Some(s), Some(t)) => s@ == t@,
        (None, None) => true,
        _ => false,
    }
}

/// Two lists of texts read alike.
pub open spec fn lists_read_alike(a: Seq<String>, b: Seq<String>) -> bool {
    a.len() == b.len() && forall|i: int| 0 <= i < a.len() ==> (#[trigger] a[i])@ == b[i]@
}

/// Comparing texts that may be absent compares what they read.
pub proof fn compared_texts_read_alike(a: Option<String>, b: Option<String>, s: Seq<char>)
    ensures
        text::opt_text(a) == text::opt_text(b) <==> read_alike(a, b),
        text::opt_text(a) == Some(s) <==> reads(a, s),
        text::opt_text(a) is None <==> a is None,
{
}

/// Comparing lists of texts compares what they read, entry by entry.
pub proof fn compared_lists_read_alike(a: Seq<String>, b: Seq<String>)
    ensures
        text::texts(a) == text::texts(b) <==> lists_read_alike(a, b),
{
    if text::texts(a) == text::texts(b) {
        assert(text::texts(a).len() == text::texts(b).len());
        assert forall|i: int| 0 <= i < a.len() implies (#[trigger] a[i])@ == b[i]@ by {
            assert(text::texts(a)[i] == text::texts(b)[i]);
        }
    }
    if lists_read_alike(a, b) {
        assert(text::texts(a) =~= text::texts(b));
    }
}

/// The volume at `i` is the only one of its kind with this UUID.
pub open spec fn only_volume_at(
    items: Seq<LvmIdentity>,
    kind: LvmIdentityKind,
    uuid: Seq<char>,
    i: int,
) -> bool {
    &&& 0 <= i < items.len()
    &&& forall|j: int|
        0 <= j < items.len() ==> ((#[trigger] items[j]).kind == kind && reads(items[j].uuid, uuid)
            <==> j == i)
}

/// The partition at `i` is the only one with this path.
pub open spec fn only_partition_at(
    items: Seq<PartitionGeometryIdentity>,
    path: Seq<char>,
    i: int,
) -> bool {
    &&& 0 <= i < items.len()
    &&& forall|j: int| 0 <= j < items.len() ==> ((#[trigger] items[j]).partition@ == path <==> j == i)
}

/// The device at `i` is the only one with this path.
pub open spec fn only_device_at(items: Seq<DeviceIdentity>, path: Seq<char>, i: int) -> bool {
    &&& 0 <= i < items.len()
    &&& forall|j: int| 0 <= j < items.len() ==> ((#[trigger] items[j]).path@ == path <==> j == i)
}

/// The mount at `i` is the only one of this filesystem type on this mountpoint.
pub open spec fn only_mount_at(
    items: Seq<MountIdentity>,
    target: Seq<char>,
    fs_type: Seq<char>,
    i: int,
) -> bool {
    &&& 0 <= i < items.len()
    &&& forall|j: int|
        0 <= j < items.len() ==> ((#[trigger] items[j]).target@ == target && reads(
            items[j].fs_type,
            fs_type,
        ) <==> j == i)
}

/// A search for a volume has one answer exactly where one volume is of that kind and UUID.
pub proof fn found_volume_is_the_only_one(
    items: Seq<LvmIdentity>,
    kind: LvmIdentityKind,
    uuid: Seq<char>,
)
    ensures
        model::lvm_with(items, kind, uuid).len() == 1 <==> exists|i: int|
            only_volume_at(items, kind, uuid, i),
        forall|i: int| #[trigger]
            only_volume_at(items, kind, uuid, i) ==> model::lvm_with(items, kind, uuid) == seq![
                items[i],
            ],
{
    let keep = |e: LvmIdentity| e.kind == kind && text::opt_text(e.uuid) == Some(uuid);
    lemma_one_kept(items, keep);
    lemma_same_search(items, keep);
    assert forall|i: int| #[trigger] only_volume_at(items, kind, uuid, i) <==> only_kept_at(
        items,
        keep,
        i,
    ) by {
        assert(forall|j: int|
            0 <= j < items.len() ==> (keep(#[trigger] items[j]) <==> items[j].kind == kind && reads(
                items[j].uuid,
                uuid,
            )));
    }
    if exists|i: int| only_kept_at(items, keep, i) {
        let i = choose|i: int| only_kept_at(items, keep, i);
        assert(only_volume_at(items, kind, uuid, i));
    }
}

/// A search for a partition has one answer exactly where one partition has that path.
pub proof fn found_partition_is_the_only_one(
    items: Seq<PartitionGeometryIdentity>,
    path: Seq<char>,
)
    ensures
        model::partitions_named(items, path).len() == 1 <==> exists|i: int|
            only_partition_at(items, path, i),
        forall|i: int| #[trigger]
            only_partition_at(items, path, i) ==> model::partitions_named(items, path) == seq![
                items[i],
            ],
{
    let keep = |e: PartitionGeometryIdentity| e.partition@ == path;
    lemma_one_kept(items, keep);
    lemma_same_search(items, keep);
    assert forall|i: int| #[trigger] only_partition_at(items, path, i) <==> only_kept_at(
        items,
        keep,
        i,
    ) by {
        assert(forall|j: int|
            0 <= j < items.len() ==> (keep(#[trigger] items[j]) <==> items[j].partition@ == path));
    }
    if exists|i: int| only_kept_at(items, keep, i) {
        let i = choose|i: int| only_kept_at(items, keep, i);
        assert(only_partition_at(items, path, i));
    }
}

/// A search for a device has one answer exactly where one device has that path.
pub proof fn found_device_is_the_only_one(items: Seq<DeviceIdentity>, path: Seq<char>)
    ensures
        model::devices_at(items, path).len() == 1 <==> exists|i: int| only_device_at(items, path, i),
        forall|i: int| #[trigger]
            only_device_at(items, path, i) ==> model::devices_at(items, path) == seq![items[i]],
{
    let keep = |e: DeviceIdentity| e.path@ == path;
    lemma_one_kept(items, keep);
    lemma_same_search(items, keep);
    assert forall|i: int| #[trigger] only_device_at(items, path, i) <==> only_kept_at(
        items,
        keep,
        i,
    ) by {
        assert(forall|j: int|
            0 <= j < items.len() ==> (keep(#[trigger] items[j]) <==> items[j].path@ == path));
    }
    if exists|i: int| only_kept_at(items, keep, i) {
        let i = choose|i: int| only_kept_at(items, keep, i);
        assert(only_device_at(items, path, i));
    }
}

/// A search for a mount has one answer exactly where one mount is of that type on that mountpoint.
pub proof fn found_mount_is_the_only_one(
    items: Seq<MountIdentity>,
    target: Seq<char>,
    fs_type: Seq<char>,
)
    ensures
        model::mounts_on(items, target, fs_type).len() == 1 <==> exists|i: int|
            only_mount_at(items, target, fs_type, i),
        forall|i: int| #[trigger]
            only_mount_at(items, target, fs_type, i) ==> model::mounts_on(items, target, fs_type)
                == seq![items[i]],
{
    let keep = |e: MountIdentity| e.target@ == target && text::opt_text(e.fs_type) == Some(fs_type);
    lemma_one_kept(items, keep);
    lemma_same_search(items, keep);
    assert forall|i: int| #[trigger] only_mount_at(items, target, fs_type, i) <==> only_kept_at(
        items,
        keep,
        i,
    ) by {
        assert(forall|j: int|
            0 <= j < items.len() ==> (keep(#[trigger] items[j]) <==> items[j].target@ == target
                && reads(items[j].fs_type, fs_type)));
    }
    if exists|i: int| only_kept_at(items, keep, i) {
        let i = choose|i: int| only_kept_at(items, keep, i);
        assert(only_mount_at(items, target, fs_type, i));
    }
}

/// Two mounts that agree read alike in every respect.
pub proof fn agreeing_mounts_read_alike(a: MountIdentity, b: MountIdentity)
    ensures
        model::mounts_agree(a, b) <==> {
            &&& a.target@ == b.target@
            &&& read_alike(a.source, b.source)
            &&& read_alike(a.fs_type, b.fs_type)
            &&& lists_read_alike(a.options@, b.options@)
        },
{
    compared_lists_read_alike(a.options@, b.options@);
}

/// The number that a row of digits stands for, each worth ten times the one behind it.
pub open spec fn number_in(s: Seq<char>) -> int
    decreases s.len(),
{
    if s.len() == 0 {
        0
    } else {
        10 * number_in(s.drop_last()) + (s.last() as int - '0' as int)
    }
}

/// The text is a row of digits and nothing else.
pub open spec fn is_digit_row(s: Seq<char>) -> bool {
    s.len() > 0 && forall|i: int| 0 <= i < s.len() ==> '0' <= #[trigger] s[i] <= '9'
}

/// The text spells the number in digits, without a needless zero in front.
pub open spec fn spells(s: Seq<char>, n: int) -> bool {
    is_digit_row(s) && number_in(s) == n && (s.len() > 1 ==> s[0] != '0')
}

/// What the library writes for a number spells that number.
pub proof fn written_number_is_read_back(n: nat)
    ensures
        spells(text::decimal_text(n), n as int),
    decreases n,
{
    reveal_with_fuel(number_in, 2);
    let s = text::decimal_text(n);
    if n >= 10 {
        written_number_is_read_back(n / 10);
        text::lemma_decimal_digits(n / 10);
        assert(s.drop_last() =~= text::decimal_text(n / 10));
        assert(s[0] == text::decimal_text(n / 10)[0]);
    } else {
        assert(s.drop_last() =~= Seq::empty());
    }
}

/// Digits are read as the number that they stand for.
pub proof fn digits_are_read_as_their_number(s: Seq<char>)
    ensures
        s.len() > 0 && text::all_digits(s) <==> is_digit_row(s),
        text::all_digits(s) ==> text::decimal_value(s) == number_in(s),
    decreases s.len(),
{
    if text::all_digits(s) && s.len() > 0 {
        digits_are_read_as_their_number(s.drop_last());
        assert(text::is_digit_char(s[s.len() - 1]));
        assert forall|i: int| 0 <= i < s.len() implies '0' <= #[trigger] s[i] <= '9' by {
            assert(text::is_digit_char(s[i]));
        }
    }
    if is_digit_row(s) {
        assert forall|i: int| 0 <= i < s.len() implies text::is_digit_char(#[trigger] s[i]) by {
            assert('0' <= s[i] <= '9');
        }
    }
}

/// The position is the first one that reports something.
pub open spec fn is_first_report<E>(n: int, at: spec_fn(int) -> Option<E>, i: int) -> bool {
    &&& 0 <= i < n
    &&& at(i) is Some
    &&& forall|j: int| 0 <= j < i ==> #[trigger] at(j) is None
}

/// What is reported of a row of positions is what the first one with anything to report says.
pub proof fn report_is_the_first_one<E>(n: int, at: spec_fn(int) -> Option<E>)
    ensures
        text::first_some(n, at) is None <==> forall|i: int| 0 <= i < n ==> #[trigger] at(i) is None,
        text::first_some(n, at) is Some <==> exists|i: int| is_first_report(n, at, i),
        forall|i: int| #[trigger]
            is_first_report(n, at, i) ==> text::first_some(n, at) == at(i),
        forall|other: spec_fn(int) -> Option<E>|
            (forall|i: int| #[trigger] other(i) == at(i)) ==> #[trigger] text::first_some(n, other)
                == text::first_some(n, at),
    decreases n,
{
    assert forall|other: spec_fn(int) -> Option<E>|
        (forall|i: int| #[trigger] other(i) == at(i)) implies #[trigger] text::first_some(n, other)
        == text::first_some(n, at) by {
        assert(other =~= at);
    }
    if n > 0 {
        let m = n - 1;
        report_is_the_first_one(m, at);
        if text::first_some(m, at) is Some {
            let i = choose|i: int| is_first_report(m, at, i);
            assert(is_first_report(n, at, i));
        } else if at(n - 1) is Some {
            assert(is_first_report(n, at, n - 1));
        }
        assert forall|i: int| #[trigger] is_first_report(n, at, i) implies text::first_some(n, at)
            == at(i) by {
            if i < n - 1 {
                assert(is_first_report(n - 1, at, i));
            }
        }
        if exists|i: int| is_first_report(n, at, i) {
            let i = choose|i: int| is_first_report(n, at, i);
            assert(text::first_some(n, at) == at(i));
        }
        if forall|i: int| 0 <= i < n ==> #[trigger] at(i) is None {
            assert(at(n - 1) is None);
        }
        if text::first_some(n, at) is None {
            assert forall|i: int| 0 <= i < n implies #[trigger] at(i) is None by {
                if i == n - 1 {
                } else {
                    assert(at(i) is None);
                }
            }
        }
    }
}

/// A digest is spelled with 64 characters, each a decimal digit or one of the first six small
/// letters.
pub proof fn digest_is_spelled_in_small_hexadecimal(s: Seq<char>)
    ensures
        text::is_digest_text(s) <==> {
            &&& s.len() == 64
            &&& forall|i: int|
                0 <= i < s.len() ==> '0' <= #[trigger] s[i] <= '9' || 'a' <= s[i] <= 'f'
        },
{
    if text::is_digest_text(s) {
        assert forall|i: int| 0 <= i < s.len() implies '0' <= #[trigger] s[i] <= '9' || 'a' <= s[i]
            <= 'f' by {
            assert(text::is_lower_hex_char(s[i]));
        }
    }
}

/// A path is safe exactly where it starts at the root, has no NUL, and no segment between two
/// slashes, or behind the last one, is `..`. A device path also lies below `/dev/`.
pub proof fn safe_path_never_leads_upwards(s: Seq<char>)
    ensures
        text::is_safe_absolute_path(s) <==> {
            &&& exists|rest: Seq<char>| s == #[trigger] ("/"@ + rest)
            &&& !s.contains('\0')
            &&& forall|a: Seq<char>, b: Seq<char>|
                s == #[trigger] (a + "/.."@ + b) ==> b.len() > 0 && b[0] != '/'
        },
        text::is_safe_device_path(s) <==> text::is_safe_absolute_path(s) && exists|rest: Seq<char>|
            s == #[trigger] ("/dev/"@ + rest),
{
    reveal_strlit("/");
    reveal_strlit("/..");
    if text::is_safe_absolute_path(s) {
        assert(s =~= "/"@ + s.subrange(1, s.len() as int));
        assert forall|a: Seq<char>, b: Seq<char>|
            s == #[trigger] (a + "/.."@ + b) implies b.len() > 0 && b[0] != '/' by {
            let i = a.len() as int + 1;
            assert(s[i] == '.' && s[i + 1] == '.' && s[i - 1] == '/');
            assert(!text::is_parent_segment_at(s, i));
            assert(i + 2 < s.len() ==> s[i + 2] == b[0]);
        }
    }
    if (exists|rest: Seq<char>| s == #[trigger] ("/"@ + rest)) && !s.contains('\0') && (forall|
        a: Seq<char>,
        b: Seq<char>,
    |
        s == #[trigger] (a + "/.."@ + b) ==> b.len() > 0 && b[0] != '/') {
        let rest = choose|rest: Seq<char>| s == #[trigger] ("/"@ + rest);
        assert(s[0] == '/');
        assert forall|i: int| 0 <= i < s.len() implies #[trigger] s[i] != '\0' by {
            assert(s.contains(s[i]));
        }
        assert forall|i: int| 0 <= i < s.len() implies !text::is_parent_segment_at(s, i) by {
            if text::is_parent_segment_at(s, i) {
                let a = s.subrange(0, i - 1);
                let b = s.subrange(i + 2, s.len() as int);
                assert(s =~= a + "/.."@ + b);
                assert(b.len() > 0 ==> b[0] == s[i + 2]);
            }
        }
    }
    if text::has_prefix(s, "/dev/"@) {
        assert(s =~= "/dev/"@ + s.subrange("/dev/"@.len() as int, s.len() as int));
    }
    if exists|rest: Seq<char>| s == #[trigger] ("/dev/"@ + rest) {
        let rest = choose|rest: Seq<char>| s == #[trigger] ("/dev/"@ + rest);
        assert(s.subrange(0, "/dev/"@.len() as int) =~= "/dev/"@);
    }
}

/// A text spells an unsigned number exactly where it is a row of digits, with or without a plus
/// sign in front, whose number is below two to the power of 64.
pub proof fn unsigned_number_is_read_from_its_digits(s: Seq<char>, n: u64)
    ensures
        text::u64_of_text(s) == Some(n) <==> exists|digits: Seq<char>|
            {
                &&& #[trigger] is_digit_row(digits)
                &&& number_in(digits) == n
                &&& s == digits || s == seq!['+'] + digits
            },
{
    let rest = text::unsigned_digits(s);
    digits_are_read_as_their_number(rest);
    if text::u64_of_text(s) == Some(n) {
        assert(is_digit_row(rest));
        if s.len() > 0 && s[0] == '+' {
            assert(s =~= seq!['+'] + rest);
        }
    }
    if exists|digits: Seq<char>|
        {
            &&& #[trigger] is_digit_row(digits)
            &&& number_in(digits) == n
            &&& s == digits || s == seq!['+'] + digits
        } {
        let digits = choose|digits: Seq<char>|
            {
                &&& #[trigger] is_digit_row(digits)
                &&& number_in(digits) == n
                &&& s == digits || s == seq!['+'] + digits
            };
        assert('0' <= digits[0] <= '9');
        if s == seq!['+'] + digits {
            assert(s.skip(1) =~= digits);
        }
        assert(rest == digits);
    }
}

/// A name joined to a directory stands behind it, and behind exactly one more slash where the
/// directory does not end in one.
pub proof fn joined_name_stands_behind_its_directory(directory: Seq<char>, name: Seq<char>)
    ensures
        directory.len() == 0 ==> text::path_join(directory, name) == name,
        directory.len() > 0 && directory[directory.len() - 1] == '/' ==> text::path_join(
            directory,
            name,
        ) == directory + name,
        directory.len() > 0 && directory[directory.len() - 1] != '/' ==> text::path_join(
            directory,
            name,
        ) == directory + seq!['/'] + name,
{
    assert(directory.push('/') =~= directory + seq!['/']);
}

} // verus!
