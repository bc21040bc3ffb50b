//! The command line of the harness.

use vstd::prelude::*;
use vstd::string::*;

use crate::reading;
use crate::text;
use crate::order;
use crate::order::sorted_set;
use crate::text::{parse_u64, same_text, text_starts_with};

verus! {

/// What the harness is asked to do.
#[derive(Debug, PartialEq, Eq)]
pub struct HarnessArgs {
    pub target: String,
    pub loop_device: String,
    pub backing_file: String,
    pub owned_root: String,
    pub association_row: String,
    pub journal_root: String,
    pub backup_root: String,
    pub growth_bytes: u64,
    pub sfdisk: String,
    pub partx: String,
    pub pvresize: String,
    pub lvextend: String,
    pub resize2fs: String,
    pub xfs_growfs: String,
    pub xfs_scrub: String,
    pub e2fsck: Option<String>,
    pub udevadm: String,
    pub inject_failure_after_resize2fs: bool,
}

/// What a command line holds: its keys with their values, and its two flags.
pub struct ArgScan {
    pub keys: Seq<Seq<char>>,
    pub values: Seq<Seq<char>>,
    pub allowed: bool,
    pub inject: bool,
}

impl ArgScan {
    /// The value behind a key.
    pub open spec fn value_of(self, key: Seq<char>) -> Option<Seq<char>> {
        text::first_some(
            self.keys.len() as int,
            |i: int|
                if self.keys[i] == key {
                    Some(self.values[i])
                } else {
                    None
                },
        )
    }

    /// The value behind a key that is there.
    pub open spec fn given(self, key: Seq<char>) -> Seq<char> {
        self.value_of(key)->Some_0
    }
}

/// Reads the arguments from position `i` on, behind what was read so far.
pub open spec fn scan_args(args: Seq<Seq<char>>, i: int, read: ArgScan) -> Result<
    ArgScan,
    Seq<char>,
>
    decreases args.len() - i,
{
    if i >= args.len() {
        Ok(read)
    } else {
        let key = args[i];
        if key == "--allow-disposable-loop-execution"@ {
            if read.allowed {
                Err("duplicate disposable execution acknowledgement"@)
            } else {
                scan_args(args, i + 1, ArgScan { allowed: true, ..read })
            }
        } else if key == "--inject-failure-after-resize2fs"@ {
            if read.inject {
                Err("duplicate resize2fs failure injection"@)
            } else {
                scan_args(args, i + 1, ArgScan { inject: true, ..read })
            }
        } else if !text::has_prefix(key, "--"@) {
            Err("unexpected argument: "@ + key)
        } else if i + 1 >= args.len() {
            Err("missing value for "@ + key)
        } else if read.value_of(key) is Some {
            Err("duplicate argument: "@ + key)
        } else {
            scan_args(
                args,
                i + 2,
                ArgScan {
                    keys: read.keys.push(key),
                    values: read.values.push(args[i + 1]),
                    ..read
                },
            )
        }
    }
}

/// Nothing read yet.
pub open spec fn nothing_read() -> ArgScan {
    ArgScan { keys: seq![], values: seq![], allowed: false, inject: false }
}

/// The message about a required key that is not there.
pub open spec fn missing(scan: ArgScan, key: Seq<char>) -> Option<Seq<char>> {
    if scan.value_of(key) is None {
        Some("missing required argument: "@ + key)
    } else {
        None
    }
}

/// A key that the harness knows.
pub open spec fn is_known_key(key: Seq<char>) -> bool {
    ||| key == "--target"@
    ||| key == "--loop-device"@
    ||| key == "--backing-file"@
    ||| key == "--owned-root"@
    ||| key == "--association-row"@
    ||| key == "--journal-root"@
    ||| key == "--backup-root"@
    ||| key == "--growth-bytes"@
    ||| key == "--sfdisk"@
    ||| key == "--partx"@
    ||| key == "--pvresize"@
    ||| key == "--lvextend"@
    ||| key == "--resize2fs"@
    ||| key == "--xfs-growfs"@
    ||| key == "--xfs-scrub"@
    ||| key == "--udevadm"@
    ||| key == "--e2fsck"@
}

/// The keys that the harness does not know.
pub open spec fn unknown_keys(keys: Seq<Seq<char>>) -> Seq<Seq<char>>
    decreases keys.len(),
{
    if keys.len() == 0 {
        seq![]
    } else if is_known_key(keys.last()) {
        unknown_keys(keys.drop_last())
    } else {
        unknown_keys(keys.drop_last()).push(keys.last())
    }
}

/// Texts in ascending order, each once.
pub open spec fn in_order(items: Seq<Seq<char>>) -> Seq<Seq<char>> {
    choose|sorted: Seq<Seq<char>>| order::is_sorted_set_of(sorted, items)
}

/// Texts with a comma and a space between them.
pub open spec fn listed(items: Seq<Seq<char>>) -> Seq<char>
    decreases items.len(),
{
    if items.len() == 0 {
        seq![]
    } else if items.len() == 1 {
        items[0]
    } else {
        listed(items.drop_last()) + ", "@ + items.last()
    }
}

/// The message about the growth, if it is no positive number.
pub open spec fn growth_fault(text: Seq<char>) -> Option<Seq<char>> {
    match text::u64_of_text(text) {
        None => Some("--growth-bytes must be a positive integer"@),
        Some(n) => if n == 0 {
            Some("--growth-bytes must be nonzero"@)
        } else {
            None
        },
    }
}

/// The message about a command line whose arguments could be read, if anything is wrong with it.
pub open spec fn args_fault(scan: ArgScan) -> Option<Seq<char>> {
    if !scan.allowed {
        Some("explicit --allow-disposable-loop-execution is required"@)
    } else if missing(scan, "--target"@) is Some {
        missing(scan, "--target"@)
    } else if missing(scan, "--loop-device"@) is Some {
        missing(scan, "--loop-device"@)
    } else if missing(scan, "--backing-file"@) is Some {
        missing(scan, "--backing-file"@)
    } else if missing(scan, "--owned-root"@) is Some {
        missing(scan, "--owned-root"@)
    } else if missing(scan, "--association-row"@) is Some {
        missing(scan, "--association-row"@)
    } else if missing(scan, "--journal-root"@) is Some {
        missing(scan, "--journal-root"@)
    } else if missing(scan, "--backup-root"@) is Some {
        missing(scan, "--backup-root"@)
    } else if missing(scan, "--growth-bytes"@) is Some {
        missing(scan, "--growth-bytes"@)
    } else if growth_fault(scan.given("--growth-bytes"@)) is Some {
        growth_fault(scan.given("--growth-bytes"@))
    } else if missing(scan, "--sfdisk"@) is Some {
        missing(scan, "--sfdisk"@)
    } else if missing(scan, "--partx"@) is Some {
        missing(scan, "--partx"@)
    } else if missing(scan, "--pvresize"@) is Some {
        missing(scan, "--pvresize"@)
    } else if missing(scan, "--lvextend"@) is Some {
        missing(scan, "--lvextend"@)
    } else if missing(scan, "--resize2fs"@) is Some {
        missing(scan, "--resize2fs"@)
    } else if missing(scan, "--xfs-growfs"@) is Some {
        missing(scan, "--xfs-growfs"@)
    } else if missing(scan, "--xfs-scrub"@) is Some {
        missing(scan, "--xfs-scrub"@)
    } else if missing(scan, "--udevadm"@) is Some {
        missing(scan, "--udevadm"@)
    } else if unknown_keys(scan.keys).len() > 0 {
        Some("unknown arguments: "@ + listed(in_order(unknown_keys(scan.keys))))
    } else {
        None
    }
}

/// The message about a command line, if anything is wrong with it.
pub open spec fn command_line_fault(args: Seq<Seq<char>>) -> Option<Seq<char>> {
    match scan_args(args, 0, nothing_read()) {
        Err(message) => Some(message),
        Ok(scan) => args_fault(scan),
    }
}

/// Arguments as a command line gives them.
pub open spec fn are_given(args: HarnessArgs, scan: ArgScan) -> bool {
    &&& args.target@ == scan.given("--target"@)
    &&& args.loop_device@ == scan.given("--loop-device"@)
    &&& args.backing_file@ == scan.given("--backing-file"@)
    &&& args.owned_root@ == scan.given("--owned-root"@)
    &&& args.association_row@ == scan.given("--association-row"@)
    &&& args.journal_root@ == scan.given("--journal-root"@)
    &&& args.backup_root@ == scan.given("--backup-root"@)
    &&& Some(args.growth_bytes) == text::u64_of_text(scan.given("--growth-bytes"@))
    &&& args.sfdisk@ == scan.given("--sfdisk"@)
    &&& args.partx@ == scan.given("--partx"@)
    &&& args.pvresize@ == scan.given("--pvresize"@)
    &&& args.lvextend@ == scan.given("--lvextend"@)
    &&& args.resize2fs@ == scan.given("--resize2fs"@)
    &&& args.xfs_growfs@ == scan.given("--xfs-growfs"@)
    &&& args.xfs_scrub@ == scan.given("--xfs-scrub"@)
    &&& args.udevadm@ == scan.given("--udevadm"@)
    &&& text::opt_text(args.e2fsck) == scan.value_of("--e2fsck"@)
    &&& args.inject_failure_after_resize2fs == scan.inject
}

struct ReadArgs {
    keys: Vec<String>,
    values: Vec<String>,
    allowed: bool,
    inject: bool,
}

impl ReadArgs {
    spec fn well_formed(self) -> bool {
        self.keys@.len() == self.values@.len()
    }

    spec fn scan(self) -> ArgScan {
        ArgScan {
            keys: text::texts(self.keys@),
            values: text::texts(self.values@),
            allowed: self.allowed,
            inject: self.inject,
        }
    }

    fn value(&self, key: &str) -> (value: Option<String>)
        requires
            self.well_formed(),
        ensures
            text::opt_text(value) == self.scan().value_of(key@),
    {
        let ghost scan = self.scan();
        let ghost at = |i: int|
            if scan.keys[i] == key@ {
                Some(scan.values[i])
            } else {
                None
            };
        let mut i: usize = 0;
        while i < self.keys.len()
            invariant
                i <= self.keys@.len(),
                self.well_formed(),
                scan == self.scan(),
                at == (|i: int|
                    if scan.keys[i] == key@ {
                        Some(scan.values[i])
                    } else {
                        None
                    }),
                text::first_some(i as int, at) is None,
            decreases self.keys@.len() - i,
        {
            if same_text(self.keys[i].as_str(), key) {
                proof {
                    assert(at(i as int) == Some(self.values@[i as int]@));
                    text::lemma_first_some_stays(i + 1, self.keys@.len() as int, at);
                }
                return Some(self.values[i].clone());
            }
            assert(at(i as int) is None);
            i += 1;
        }
        None
    }

    fn take(&self, key: &str) -> (result: Result<String, String>)
        requires
            self.well_formed(),
        ensures
            match result {
                Ok(value) => self.scan().value_of(key@) == Some(value@),
                Err(message) => missing(self.scan(), key@) == Some(message@),
            },
    {
        match self.value(key) {
            Some(value) => Ok(value),
            None => Err(message_about("missing required argument: ", key)),
        }
    }
}

fn message_about(prefix: &str, key: &str) -> (message: String)
    ensures
        message@ == prefix@ + key@,
{
    let mut message = prefix.to_owned();
    message.append(key);
    message
}

fn read_args(arguments: &Vec<String>) -> (result: Result<ReadArgs, String>)
    ensures
        match result {
            Ok(read) => read.well_formed() && scan_args(text::texts(arguments@), 0, nothing_read())
                == Ok::<ArgScan, Seq<char>>(read.scan()),
            Err(message) => scan_args(text::texts(arguments@), 0, nothing_read()) == Err::<
                ArgScan,
                Seq<char>,
            >(message@),
        },
{
    let mut read = ReadArgs {
        keys: Vec::new(),
        values: Vec::new(),
        allowed: false,
        inject: false,
    };
    let ghost args = text::texts(arguments@);
    proof {
        assert(read.scan().keys =~= seq![]);
        assert(read.scan().values =~= seq![]);
    }
    let mut i: usize = 0;
    while i < arguments.len()
        invariant
            i <= arguments@.len(),
            args == text::texts(arguments@),
            read.well_formed(),
            scan_args(args, i as int, read.scan()) == scan_args(args, 0, nothing_read()),
        decreases arguments@.len() - i,
    {
        let key = arguments[i].as_str();
        assert(key@ == args[i as int]);
        if same_text(key, "--allow-disposable-loop-execution") {
            if read.allowed {
                return Err("duplicate disposable execution acknowledgement".to_owned());
            }
            let ghost before = read.scan();
            read.allowed = true;
            assert(read.scan() == (ArgScan { allowed: true, ..before }));
            i += 1;
        } else if same_text(key, "--inject-failure-after-resize2fs") {
            if read.inject {
                return Err("duplicate resize2fs failure injection".to_owned());
            }
            let ghost before = read.scan();
            read.inject = true;
            assert(read.scan() == (ArgScan { inject: true, ..before }));
            i += 1;
        } else if !text_starts_with(key, "--") {
            return Err(message_about("unexpected argument: ", key));
        } else if arguments.len() - i == 1 {
            return Err(message_about("missing value for ", key));
        } else {
            match read.value(key) {
                Some(_) => return Err(message_about("duplicate argument: ", key)),
                None => {},
            }
            let ghost before = read.scan();
            read.keys.push(arguments[i].clone());
            read.values.push(arguments[i + 1].clone());
            proof {
                assert(read.scan().keys =~= before.keys.push(args[i as int]));
                assert(read.scan().values =~= before.values.push(args[i + 1]));
            }
            i += 2;
        }
    }
    Ok(read)
}

fn known_key(key: &str) -> (yes: bool)
    ensures
        yes == is_known_key(key@),
{
    same_text(key, "--target") || same_text(key, "--loop-device") || same_text(
        key,
        "--backing-file",
    ) || same_text(key, "--owned-root") || same_text(key, "--association-row") || same_text(
        key,
        "--journal-root",
    ) || same_text(key, "--backup-root") || same_text(key, "--growth-bytes") || same_text(
        key,
        "--sfdisk",
    ) || same_text(key, "--partx") || same_text(key, "--pvresize") || same_text(key, "--lvextend")
        || same_text(key, "--resize2fs") || same_text(key, "--xfs-growfs") || same_text(
        key,
        "--xfs-scrub",
    ) || same_text(key, "--udevadm") || same_text(key, "--e2fsck")
}

fn list_unknown(keys: &Vec<String>) -> (unknown: Vec<String>)
    ensures
        text::texts(unknown@) == unknown_keys(text::texts(keys@)),
{
    let ghost all = text::texts(keys@);
    let mut unknown: Vec<String> = Vec::new();
    assert(text::texts(unknown@) =~= unknown_keys(all.take(0)));
    let mut i: usize = 0;
    while i < keys.len()
        invariant
            i <= keys@.len(),
            all == text::texts(keys@),
            text::texts(unknown@) == unknown_keys(all.take(i as int)),
        decreases keys@.len() - i,
    {
        let ghost before = text::texts(unknown@);
        proof {
            assert(all.take(i + 1).drop_last() =~= all.take(i as int));
            assert(all.take(i + 1).last() == keys@[i as int]@);
        }
        if !known_key(keys[i].as_str()) {
            unknown.push(keys[i].clone());
            assert(text::texts(unknown@) =~= before.push(keys@[i as int]@));
        }
        i += 1;
    }
    assert(all.take(all.len() as int) =~= all);
    unknown
}

fn list_text(items: &Vec<String>) -> (text: String)
    ensures
        text@ == listed(text::texts(items@)),
{
    let ghost all = text::texts(items@);
    let mut text = String::new();
    assert(text@ =~= listed(all.take(0)));
    let mut i: usize = 0;
    while i < items.len()
        invariant
            i <= items@.len(),
            all == text::texts(items@),
            text@ == listed(all.take(i as int)),
        decreases items@.len() - i,
    {
        if i > 0 {
            text.append(", ");
        }
        text.append(items[i].as_str());
        proof {
            assert(all.take(i + 1).drop_last() =~= all.take(i as int));
            assert(all.take(i + 1).last() == items@[i as int]@);
            if i == 0 {
                assert(listed(all.take(0)) =~= seq![]);
                assert(text@ =~= items@[0]@);
            }
        }
        i += 1;
    }
    assert(all.take(all.len() as int) =~= all);
    text
}

fn unknown_message(unknown: &Vec<String>) -> (message: String)
    ensures
        message@ == "unknown arguments: "@ + listed(in_order(text::texts(unknown@))),
{
    let sorted = sorted_set(unknown);
    proof {
        order::sorted_set_is_unique(text::texts(sorted@), in_order(text::texts(unknown@)), text::texts(unknown@));
    }
    message_about("unknown arguments: ", list_text(&sorted).as_str())
}

fn build_args(read: &ReadArgs) -> (result: Result<HarnessArgs, String>)
    requires
        read.well_formed(),
    ensures
        match result {
            Ok(args) => args_fault(read.scan()) is None && are_given(args, read.scan()),
            Err(message) => args_fault(read.scan()) == Some(message@),
        },
{
    if !read.allowed {
        return Err("explicit --allow-disposable-loop-execution is required".to_owned());
    }
    let target = read.take("--target")?;
    let loop_device = read.take("--loop-device")?;
    let backing_file = read.take("--backing-file")?;
    let owned_root = read.take("--owned-root")?;
    let association_row = read.take("--association-row")?;
    let journal_root = read.take("--journal-root")?;
    let backup_root = read.take("--backup-root")?;
    let growth = read.take("--growth-bytes")?;
    let growth_bytes: u64 = match parse_u64(growth.as_str()) {
        None => return Err("--growth-bytes must be a positive integer".to_owned()),
        Some(n) => n,
    };
    if growth_bytes == 0 {
        return Err("--growth-bytes must be nonzero".to_owned());
    }
    let sfdisk = read.take("--sfdisk")?;
    let partx = read.take("--partx")?;
    let pvresize = read.take("--pvresize")?;
    let lvextend = read.take("--lvextend")?;
    let resize2fs = read.take("--resize2fs")?;
    let xfs_growfs = read.take("--xfs-growfs")?;
    let xfs_scrub = read.take("--xfs-scrub")?;
    let udevadm = read.take("--udevadm")?;
    let unknown = list_unknown(&read.keys);
    assert(text::texts(unknown@).len() == unknown@.len());
    if unknown.len() > 0 {
        return Err(unknown_message(&unknown));
    }
    Ok(
        HarnessArgs {
            target,
            loop_device,
            backing_file,
            owned_root,
            association_row,
            journal_root,
            backup_root,
            growth_bytes,
            sfdisk,
            partx,
            pvresize,
            lvextend,
            resize2fs,
            xfs_growfs,
            xfs_scrub,
            e2fsck: read.value("--e2fsck"),
            udevadm,
            inject_failure_after_resize2fs: read.inject,
        },
    )
}

/// Reads the command line of the harness, without the program's name.
pub fn parse_args(arguments: &Vec<String>) -> (result: Result<HarnessArgs, String>)
    ensures
        match result {
            Ok(args) => command_line_fault(text::texts(arguments@)) is None && are_given(
                args,
                scan_args(text::texts(arguments@), 0, nothing_read())->Ok_0,
            ),
            Err(message) => command_line_fault(text::texts(arguments@)) == Some(message@),
        },
{
    let read = read_args(arguments)?;
    build_args(&read)
}

/// The value of a key is what stands at the first place of that key.
pub proof fn value_is_that_of_the_first_key(scan: ArgScan, key: Seq<char>)
    ensures
        scan.value_of(key) is None <==> !scan.keys.contains(key),
        scan.value_of(key) matches Some(value) ==> exists|i: int|
            {
                &&& 0 <= i < scan.keys.len()
                &&& #[trigger] scan.keys[i] == key
                &&& scan.values[i] == value
                &&& forall|j: int| 0 <= j < i ==> #[trigger] scan.keys[j] != key
            },
{
    let at = |i: int|
        if scan.keys[i] == key {
            Some(scan.values[i])
        } else {
            None
        };
    reading::report_is_the_first_one(scan.keys.len() as int, at);
    assert(scan.value_of(key) == text::first_some(scan.keys.len() as int, at));
    if scan.value_of(key) is None {
        assert forall|i: int| 0 <= i < scan.keys.len() implies scan.keys[i] != key by {
            assert(at(i) is None);
        }
    } else {
        let i = choose|i: int| reading::is_first_report(scan.keys.len() as int, at, i);
        assert(scan.keys[i] == key);
        assert forall|j: int| 0 <= j < i implies #[trigger] scan.keys[j] != key by {
            assert(at(j) is None);
        }
    }
}

/// The value stands right behind the key on the command line.
pub open spec fn stands_behind(args: Seq<Seq<char>>, key: Seq<char>, value: Seq<char>) -> bool {
    exists|i: int| 0 <= i < args.len() - 1 && #[trigger] args[i] == key && args[i + 1] == value
}

/// What was read so far stands on the command line, each key once.
pub open spec fn was_read_from(read: ArgScan, args: Seq<Seq<char>>) -> bool {
    &&& read.keys.len() == read.values.len()
    &&& read.keys.no_duplicates()
    &&& forall|k: int|
        0 <= k < read.keys.len() ==> stands_behind(args, #[trigger] read.keys[k], read.values[k])
    &&& read.allowed ==> args.contains("--allow-disposable-loop-execution"@)
    &&& read.inject ==> args.contains("--inject-failure-after-resize2fs"@)
}

/// Everything that is read stands on the command line: each value right behind its key, no key
/// twice, and each switch by itself.
pub proof fn arguments_are_read_from_the_command_line(
    args: Seq<Seq<char>>,
    i: int,
    read: ArgScan,
)
    requires
        0 <= i,
        was_read_from(read, args),
        scan_args(args, i, read) is Ok,
    ensures
        was_read_from(scan_args(args, i, read)->Ok_0, args),
    decreases args.len() - i,
{
    if i < args.len() {
        let key = args[i];
        if key == "--allow-disposable-loop-execution"@ {
            assert(args.contains(args[i]));
            arguments_are_read_from_the_command_line(
                args,
                i + 1,
                ArgScan { allowed: true, ..read },
            );
        } else if key == "--inject-failure-after-resize2fs"@ {
            assert(args.contains(args[i]));
            arguments_are_read_from_the_command_line(args, i + 1, ArgScan { inject: true, ..read });
        } else {
            let next = ArgScan {
                keys: read.keys.push(key),
                values: read.values.push(args[i + 1]),
                ..read
            };
            value_is_that_of_the_first_key(read, key);
            assert(next.keys.no_duplicates()) by {
                assert forall|a: int, b: int|
                    0 <= a < next.keys.len() && 0 <= b < next.keys.len() && a != b implies next.keys[a]
                    != next.keys[b] by {
                    if a < read.keys.len() && b < read.keys.len() {
                        assert(read.keys[a] != read.keys[b]);
                    } else if a < read.keys.len() {
                        assert(read.keys.contains(read.keys[a]));
                    } else {
                        assert(read.keys.contains(read.keys[b]));
                    }
                }
            }
            assert forall|k: int| 0 <= k < next.keys.len() implies stands_behind(
                args,
                #[trigger] next.keys[k],
                next.values[k],
            ) by {
                if k < read.keys.len() {
                    assert(stands_behind(args, read.keys[k], read.values[k]));
                } else {
                    assert(args[i] == key);
                }
            }
            arguments_are_read_from_the_command_line(args, i + 2, next);
        }
    }
}

proof fn lemma_scan_goes_on(
    args: Seq<Seq<char>>,
    more: Seq<Seq<char>>,
    i: int,
    read: ArgScan,
)
    requires
        0 <= i <= args.len(),
        scan_args(args, i, read) is Ok,
    ensures
        scan_args(args + more, i, read) == scan_args(
            args + more,
            args.len() as int,
            scan_args(args, i, read)->Ok_0,
        ),
    decreases args.len() - i,
{
    if i < args.len() {
        let key = args[i];
        assert((args + more)[i] == key);
        if key == "--allow-disposable-loop-execution"@ {
            lemma_scan_goes_on(args, more, i + 1, ArgScan { allowed: true, ..read });
        } else if key == "--inject-failure-after-resize2fs"@ {
            lemma_scan_goes_on(args, more, i + 1, ArgScan { inject: true, ..read });
        } else {
            assert((args + more)[i + 1] == args[i + 1]);
            lemma_scan_goes_on(
                args,
                more,
                i + 2,
                ArgScan { keys: read.keys.push(key), values: read.values.push(args[i + 1]), ..read },
            );
        }
    }
}

/// A pair at the end of a command line that could be read is read as one more key with its value,
/// unless the key was there before or does not start with two dashes.
pub proof fn further_pair_is_read_behind_the_rest(
    args: Seq<Seq<char>>,
    key: Seq<char>,
    value: Seq<char>,
)
    requires
        scan_args(args, 0, nothing_read()) is Ok,
        key != "--allow-disposable-loop-execution"@,
        key != "--inject-failure-after-resize2fs"@,
    ensures
        ({
            let before = scan_args(args, 0, nothing_read())->Ok_0;
            let after = scan_args(args + seq![key, value], 0, nothing_read());
            &&& after is Ok <==> text::has_prefix(key, "--"@) && !before.keys.contains(key)
            &&& after is Ok ==> {
                &&& after->Ok_0.keys == before.keys.push(key)
                &&& after->Ok_0.values == before.values.push(value)
                &&& after->Ok_0.allowed == before.allowed
                &&& after->Ok_0.inject == before.inject
            }
            &&& text::has_prefix(key, "--"@) && before.keys.contains(key) ==> after == Result::<
                ArgScan,
                Seq<char>,
            >::Err("duplicate argument: "@ + key)
            &&& !text::has_prefix(key, "--"@) ==> after == Result::<ArgScan, Seq<char>>::Err(
                "unexpected argument: "@ + key,
            )
        }),
{
    let more = seq![key, value];
    let before = scan_args(args, 0, nothing_read())->Ok_0;
    lemma_scan_goes_on(args, more, 0, nothing_read());
    value_is_that_of_the_first_key(before, key);
    let all = args + more;
    let n = args.len() as int;
    assert(all[n] == key && all[n + 1] == value && all.len() == n + 2);
    reveal_with_fuel(scan_args, 2);
}

/// A switch at the end of a command line that could be read is read as on, unless it was on before.
/// A key without a value is refused.
pub proof fn further_switch_is_read_once(args: Seq<Seq<char>>, key: Seq<char>)
    requires
        scan_args(args, 0, nothing_read()) is Ok,
    ensures
        ({
            let before = scan_args(args, 0, nothing_read())->Ok_0;
            let allow = scan_args(
                args + seq!["--allow-disposable-loop-execution"@],
                0,
                nothing_read(),
            );
            let inject = scan_args(
                args + seq!["--inject-failure-after-resize2fs"@],
                0,
                nothing_read(),
            );
            let lone = scan_args(args + seq![key], 0, nothing_read());
            &&& allow is Ok <==> !before.allowed
            &&& allow is Ok ==> allow->Ok_0.allowed && allow->Ok_0.inject == before.inject
                && allow->Ok_0.keys == before.keys && allow->Ok_0.values == before.values
            &&& inject is Ok <==> !before.inject
            &&& inject is Ok ==> inject->Ok_0.inject && inject->Ok_0.allowed == before.allowed
                && inject->Ok_0.keys == before.keys && inject->Ok_0.values == before.values
            &&& key != "--allow-disposable-loop-execution"@ && key
                != "--inject-failure-after-resize2fs"@ ==> lone is Err
        }),
{
    reveal_strlit("--allow-disposable-loop-execution");
    reveal_strlit("--inject-failure-after-resize2fs");
    assert("--allow-disposable-loop-execution"@[2] == 'a');
    assert("--inject-failure-after-resize2fs"@[2] == 'i');
    let n = args.len() as int;
    let a = seq!["--allow-disposable-loop-execution"@];
    let b = seq!["--inject-failure-after-resize2fs"@];
    let c = seq![key];
    lemma_scan_goes_on(args, a, 0, nothing_read());
    lemma_scan_goes_on(args, b, 0, nothing_read());
    lemma_scan_goes_on(args, c, 0, nothing_read());
    assert((args + a)[n] == a[0] && (args + a).len() == n + 1);
    assert((args + b)[n] == b[0] && (args + b).len() == n + 1);
    assert((args + c)[n] == c[0] && (args + c).len() == n + 1);
    reveal_with_fuel(scan_args, 2);
}

/// The keys that have to be there.
pub open spec fn required_keys() -> Seq<Seq<char>> {
    seq![
        "--target"@,
        "--loop-device"@,
        "--backing-file"@,
        "--owned-root"@,
        "--association-row"@,
        "--journal-root"@,
        "--backup-root"@,
        "--growth-bytes"@,
        "--sfdisk"@,
        "--partx"@,
        "--pvresize"@,
        "--lvextend"@,
        "--resize2fs"@,
        "--xfs-growfs"@,
        "--xfs-scrub"@,
        "--udevadm"@,
    ]
}

proof fn lemma_no_unknown_keys(keys: Seq<Seq<char>>)
    ensures
        unknown_keys(keys).len() == 0 <==> forall|i: int|
            0 <= i < keys.len() ==> is_known_key(#[trigger] keys[i]),
    decreases keys.len(),
{
    if keys.len() > 0 {
        let before = keys.drop_last();
        lemma_no_unknown_keys(before);
        if unknown_keys(keys).len() == 0 {
            assert forall|i: int| 0 <= i < keys.len() implies is_known_key(#[trigger] keys[i]) by {
                if i < before.len() {
                    assert(is_known_key(before[i]));
                }
            }
        } else if forall|i: int| 0 <= i < keys.len() ==> is_known_key(#[trigger] keys[i]) {
            assert(is_known_key(keys[keys.len() - 1]));
            assert forall|i: int| 0 <= i < before.len() implies is_known_key(#[trigger] before[i]) by {
                assert(is_known_key(keys[i]));
            }
        }
    }
}

/// Arguments are accepted exactly where the run was allowed, every required key is there, there is
/// no key but those and that of `e2fsck`, and the growth is a positive number.
pub proof fn arguments_are_accepted_where_nothing_is_missing(scan: ArgScan)
    ensures
        args_fault(scan) is None <==> {
            &&& scan.allowed
            &&& forall|k: int|
                0 <= k < required_keys().len() ==> scan.value_of(#[trigger] required_keys()[k])
                    is Some
            &&& forall|i: int|
                0 <= i < scan.keys.len() ==> required_keys().contains(#[trigger] scan.keys[i])
                    || scan.keys[i] == "--e2fsck"@
            &&& text::u64_of_text(scan.value_of("--growth-bytes"@)->Some_0) matches Some(n) && n > 0
        },
{
    let required = required_keys();
    lemma_no_unknown_keys(scan.keys);
    assert(required[0] == "--target"@ && required[1] == "--loop-device"@ && required[2]
        == "--backing-file"@ && required[3] == "--owned-root"@ && required[4]
        == "--association-row"@ && required[5] == "--journal-root"@ && required[6]
        == "--backup-root"@ && required[7] == "--growth-bytes"@);
    assert(required[8] == "--sfdisk"@ && required[9] == "--partx"@ && required[10]
        == "--pvresize"@ && required[11] == "--lvextend"@ && required[12] == "--resize2fs"@
        && required[13] == "--xfs-growfs"@ && required[14] == "--xfs-scrub"@ && required[15]
        == "--udevadm"@);
    assert forall|key: Seq<char>| #[trigger] is_known_key(key) <==> required.contains(key) || key
        == "--e2fsck"@ by {
        if required.contains(key) {
            let k = choose|k: int| 0 <= k < required.len() && required[k] == key;
            assert(0 <= k < 16);
        }
        if is_known_key(key) && key != "--e2fsck"@ {
            let k: int = if key == required[0] {
                0
            } else if key == required[1] {
                1
            } else if key == required[2] {
                2
            } else if key == required[3] {
                3
            } else if key == required[4] {
                4
            } else if key == required[5] {
                5
            } else if key == required[6] {
                6
            } else if key == required[7] {
                7
            } else if key == required[8] {
                8
            } else if key == required[9] {
                9
            } else if key == required[10] {
                10
            } else if key == required[11] {
                11
            } else if key == required[12] {
                12
            } else if key == required[13] {
                13
            } else if key == required[14] {
                14
            } else {
                15
            };
            assert(required[k] == key);
        }
    }
    if args_fault(scan) is None {
        assert forall|i: int| 0 <= i < scan.keys.len() implies required.contains(
            #[trigger] scan.keys[i],
        ) || scan.keys[i] == "--e2fsck"@ by {
            assert(is_known_key(scan.keys[i]));
        }
    }
    if forall|i: int|
        0 <= i < scan.keys.len() ==> required.contains(#[trigger] scan.keys[i]) || scan.keys[i]
            == "--e2fsck"@ {
        assert forall|i: int| 0 <= i < scan.keys.len() implies is_known_key(#[trigger] scan.keys[i]) by {
            assert(required.contains(scan.keys[i]) || scan.keys[i] == "--e2fsck"@);
        }
    }
}

/// Each argument of an accepted command line is the value of its own key.
pub proof fn each_argument_is_the_value_of_its_key(
    line: Seq<Seq<char>>,
    args: HarnessArgs,
)
    requires
        command_line_fault(line) is None,
        are_given(args, scan_args(line, 0, nothing_read())->Ok_0),
    ensures
        stands_behind(line, "--target"@, args.target@),
        stands_behind(line, "--loop-device"@, args.loop_device@),
        stands_behind(line, "--backing-file"@, args.backing_file@),
        stands_behind(line, "--owned-root"@, args.owned_root@),
        stands_behind(line, "--association-row"@, args.association_row@),
        stands_behind(line, "--journal-root"@, args.journal_root@),
        stands_behind(line, "--backup-root"@, args.backup_root@),
        exists|s: Seq<char>|
            #[trigger] stands_behind(line, "--growth-bytes"@, s) && text::u64_of_text(s) == Some(
                args.growth_bytes,
            ),
        args.growth_bytes > 0,
        stands_behind(line, "--sfdisk"@, args.sfdisk@),
        stands_behind(line, "--partx"@, args.partx@),
        stands_behind(line, "--pvresize"@, args.pvresize@),
        stands_behind(line, "--lvextend"@, args.lvextend@),
        stands_behind(line, "--resize2fs"@, args.resize2fs@),
        stands_behind(line, "--xfs-growfs"@, args.xfs_growfs@),
        stands_behind(line, "--xfs-scrub"@, args.xfs_scrub@),
        stands_behind(line, "--udevadm"@, args.udevadm@),
        args.e2fsck matches Some(tool) ==> stands_behind(line, "--e2fsck"@, tool@),
        line.contains("--allow-disposable-loop-execution"@),
        args.inject_failure_after_resize2fs ==> line.contains("--inject-failure-after-resize2fs"@),
{
    let scan = scan_args(line, 0, nothing_read())->Ok_0;
    assert(was_read_from(nothing_read(), line));
    arguments_are_read_from_the_command_line(line, 0, nothing_read());
    assert forall|key: Seq<char>| #[trigger] scan.value_of(key) is Some implies stands_behind(
        line,
        key,
        scan.value_of(key)->Some_0,
    ) by {
        value_is_that_of_the_first_key(scan, key);
        let i = choose|i: int|
            {
                &&& 0 <= i < scan.keys.len()
                &&& #[trigger] scan.keys[i] == key
                &&& scan.values[i] == scan.value_of(key)->Some_0
                &&& forall|j: int| 0 <= j < i ==> #[trigger] scan.keys[j] != key
            };
        assert(stands_behind(line, scan.keys[i], scan.values[i]));
    }
    assert(stands_behind(line, "--growth-bytes"@, scan.given("--growth-bytes"@)));
}

} // verus!
