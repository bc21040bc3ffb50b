//! The association of a loop device with its backing file, as `losetup` lists it.

use vstd::prelude::*;

use crate::text;
use crate::paths;
use crate::paths::trimmed;
use crate::text::{chars_of, is_white_space, same_text, text_of_chars};

verus! {

/// A loop device and the backing file that it was verified to have.
#[derive(Clone, Debug, PartialEq, Eq)]
pub struct DisposableLoopAssociation {
    loop_device: String,
    backing_file: String,
}

/// The content of an association.
pub struct AssociationModel {
    pub loop_device: Seq<char>,
    pub backing_file: Seq<char>,
}

impl View for DisposableLoopAssociation {
    type V = AssociationModel;

    closed spec fn view(&self) -> AssociationModel {
        AssociationModel { loop_device: self.loop_device@, backing_file: self.backing_file@ }
    }
}

impl DisposableLoopAssociation {
    pub fn loop_device(&self) -> (value: &str)
        ensures
            value@ == self@.loop_device,
    {
        self.loop_device.as_str()
    }

    pub fn backing_file(&self) -> (value: &str)
        ensures
            value@ == self@.backing_file,
    {
        self.backing_file.as_str()
    }
}

#[derive(Clone, Copy, Debug, PartialEq, Eq, Structural)]
pub enum DisposableLoopAssociationError {
    Malformed,
    DeviceMismatch,
    BackingFileMismatch,
}

/// Where the first word of a text ends.
pub open spec fn word_end(s: Seq<char>) -> int
    decreases s.len(),
{
    if s.len() == 0 {
        0
    } else {
        let before = word_end(s.drop_last());
        if before < s.len() - 1 || text::is_white_space_char(s.last()) {
            before
        } else {
            s.len() as int
        }
    }
}

/// What a row is refused for, if anything.
pub open spec fn association_refusal(
    expected_loop_device: Seq<char>,
    expected_backing_file: Seq<char>,
    row: Seq<char>,
) -> Option<DisposableLoopAssociationError> {
    let line = paths::trimmed_text(row);
    let end = word_end(line);
    let backing = paths::trimmed_text(line.subrange(end, line.len() as int));
    if end == line.len() || end == 0 || backing.len() == 0 {
        Some(DisposableLoopAssociationError::Malformed)
    } else if line.take(end) != expected_loop_device {
        Some(DisposableLoopAssociationError::DeviceMismatch)
    } else if backing != expected_backing_file {
        Some(DisposableLoopAssociationError::BackingFileMismatch)
    } else {
        None
    }
}

/// Verifies one row with the name of a loop device and its backing file.
pub fn verify_disposable_loop_association_row(
    expected_loop_device: &str,
    expected_backing_file: &str,
    row: &str,
) -> (result: Result<DisposableLoopAssociation, DisposableLoopAssociationError>)
    ensures
        ({
            let refusal = association_refusal(
                expected_loop_device@,
                expected_backing_file@,
                row@,
            );
            match result {
                Ok(association) => refusal is None && association@ == (AssociationModel {
                    loop_device: expected_loop_device@,
                    backing_file: expected_backing_file@,
                }),
                Err(e) => refusal == Some(e),
            }
        }),
{
    let line = trimmed(row);
    let chars = chars_of(line.as_str());
    let mut end: usize = 0;
    let mut found = false;
    let mut i: usize = 0;
    assert(line@.take(0) =~= Seq::empty());
    while i < chars.len()
        invariant
            i <= chars@.len(),
            chars@ == line@,
            end == word_end(line@.take(i as int)),
            end <= i,
            found == (end < i),
        decreases chars@.len() - i,
    {
        proof {
            assert(line@.take(i + 1).drop_last() =~= line@.take(i as int));
            assert(line@.take(i + 1).last() == chars@[i as int]);
        }
        if !found {
            if is_white_space(chars[i]) {
                found = true;
            } else {
                end = i + 1;
            }
        }
        i += 1;
    }
    assert(line@.take(line@.len() as int) =~= line@);
    if !found {
        return Err(DisposableLoopAssociationError::Malformed);
    }
    let device = text_of_chars(&chars, 0, end);
    assert(device@ =~= line@.take(end as int));
    let backing = trimmed(text_of_chars(&chars, end, chars.len()).as_str());
    if end == 0 || chars_of(backing.as_str()).len() == 0 {
        return Err(DisposableLoopAssociationError::Malformed);
    }
    if !same_text(device.as_str(), expected_loop_device) {
        return Err(DisposableLoopAssociationError::DeviceMismatch);
    }
    if !same_text(backing.as_str(), expected_backing_file) {
        return Err(DisposableLoopAssociationError::BackingFileMismatch);
    }
    Ok(
        DisposableLoopAssociation {
            loop_device: device,
            backing_file: expected_backing_file.to_owned(),
        },
    )
}

/// A row that is, between white space, a device, white space and a file is accepted for just that
/// device and that file.
pub proof fn accepted_row_is_the_expected_pair(
    device: Seq<char>,
    file: Seq<char>,
    gap: Seq<char>,
    row: Seq<char>,
)
    requires
        paths::trimmed_text(row) == device + gap + file,
        device.len() > 0,
        forall|i: int| 0 <= i < device.len() ==> !text::is_white_space_char(#[trigger] device[i]),
        gap.len() > 0,
        paths::is_blank(gap),
        file.len() > 0,
        !text::is_white_space_char(file[0]),
        !text::is_white_space_char(file[file.len() - 1]),
    ensures
        forall|d: Seq<char>, f: Seq<char>|
            association_refusal(d, f, row) is None <==> d == device && f == file,
        forall|d: Seq<char>, f: Seq<char>|
            d != device ==> association_refusal(d, f, row) == Some(
                DisposableLoopAssociationError::DeviceMismatch,
            ),
        forall|f: Seq<char>|
            f != file ==> association_refusal(device, f, row) == Some(
                DisposableLoopAssociationError::BackingFileMismatch,
            ),
{
    let line = paths::trimmed_text(row);
    lemma_word_ends_at_the_gap(device, gap + file);
    assert(line =~= device + (gap + file));
    assert(line.take(device.len() as int) =~= device);
    let rest = line.subrange(device.len() as int, line.len() as int);
    assert(rest =~= gap + file + Seq::<char>::empty());
    paths::trimming_takes_the_white_space_from_both_ends(gap, file, Seq::empty());
}

/// A row of one word, or of none, is malformed.
pub proof fn row_of_one_word_is_malformed(d: Seq<char>, f: Seq<char>, row: Seq<char>)
    requires
        forall|i: int|
            0 <= i < paths::trimmed_text(row).len() ==> !text::is_white_space_char(
                #[trigger] paths::trimmed_text(row)[i],
            ),
    ensures
        association_refusal(d, f, row) == Some(DisposableLoopAssociationError::Malformed),
{
    let line = paths::trimmed_text(row);
    lemma_word_ends_at_the_gap(line, Seq::empty());
    assert(line + Seq::<char>::empty() =~= line);
}

proof fn lemma_word_ends_at_the_gap(word: Seq<char>, rest: Seq<char>)
    requires
        forall|i: int| 0 <= i < word.len() ==> !text::is_white_space_char(#[trigger] word[i]),
        rest.len() > 0 ==> text::is_white_space_char(rest[0]),
    ensures
        word_end(word + rest) == word.len(),
    decreases word.len() + rest.len(),
{
    let s = word + rest;
    if rest.len() > 0 {
        assert(s.drop_last() =~= word + rest.drop_last());
        if rest.len() > 1 {
            assert(rest.drop_last()[0] == rest[0]);
        }
        lemma_word_ends_at_the_gap(word, rest.drop_last());
        assert(s.last() == rest.last());
    } else if word.len() > 0 {
        assert(s =~= word);
        assert(word.drop_last() + rest =~= word.drop_last());
        assert forall|i: int| 0 <= i < word.drop_last().len() implies !text::is_white_space_char(
            #[trigger] word.drop_last()[i],
        ) by {
            assert(word.drop_last()[i] == word[i]);
        }
        lemma_word_ends_at_the_gap(word.drop_last(), rest);
        assert(!text::is_white_space_char(word[word.len() - 1]));
    }
}

} // verus!
