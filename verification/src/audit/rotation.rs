//! Rotation of the audit log file.
//!
//! Rotation scheme (best-effort, errors silently ignored):
//!   network.jsonl → network.1.jsonl
//!   network.1.jsonl → network.2.jsonl
//!   network.2.jsonl → network.3.jsonl
//!   network.3.jsonl → deleted
use vstd::prelude::*;

verus! {

/// Maximum size of `network.jsonl` before rotation (10 MiB).
pub const MAX_LOG_FILE_SIZE: u64 = 10 * 1024 * 1024;

/// Number of rotated log files to keep (network.1.jsonl through network.3.jsonl).
pub const MAX_ROTATED_FILES: u32 = 3;

/// A file of the audit log.
#[derive(Debug, Clone, Copy, PartialEq, Eq, Structural)]
pub enum LogFile {
    /// The file that lines are appended to.
    Current,
    /// A rotated file, by its number; higher numbers are older.
    Rotated(u32),
}

/// One step of a rotation.
#[derive(Debug, Clone, Copy, PartialEq, Eq, Structural)]
pub enum RotationStep {
    /// Delete a file; if it is not there, nothing happens.
    Remove(LogFile),
    /// Rename a file.
    Rename {
        /// The file to rename.
        from: LogFile,
        /// The file it becomes; one that is already there is overwritten.
        to: LogFile,
        /// Whether the renaming is attempted only if `from` is there.
        only_if_present: bool,
    },
}

/// Whether a log file is rotated: its size is known and exceeds the limit, and
/// it has a parent directory for the rotated files.
pub open spec fn rotates(size: Option<u64>, has_parent: bool) -> bool {
    &&& size matches Some(n) && n > MAX_LOG_FILE_SIZE
    &&& has_parent
}

/// The step that deletes the oldest file.
pub open spec fn remove_oldest_step() -> RotationStep {
    RotationStep::Remove(LogFile::Rotated(MAX_ROTATED_FILES))
}

/// The step that makes room by moving rotated file `i` one number up.
pub open spec fn shift_step(i: u32) -> RotationStep {
    RotationStep::Rename {
        from: LogFile::Rotated(i),
        to: LogFile::Rotated((i + 1) as u32),
        only_if_present: true,
    }
}

/// The step that turns the current file into the first rotated one.
pub open spec fn current_step() -> RotationStep {
    RotationStep::Rename { from: LogFile::Current, to: LogFile::Rotated(1), only_if_present: false }
}

/// The shifts of the rotated files from `i` down to 1.
pub open spec fn shifts_from(i: u32) -> Seq<RotationStep> {
    Seq::new(i as nat, |k: int| shift_step((i - k) as u32))
}

/// The steps of a rotation: the oldest file goes, the other rotated files move
/// up, the older first, then the current file becomes the first rotated one.
pub open spec fn rotation_steps() -> Seq<RotationStep> {
    seq![remove_oldest_step()] + shifts_from((MAX_ROTATED_FILES - 1) as u32) + seq![current_step()]
}

/// The steps for a log file of that size, with or without a parent directory.
pub open spec fn planned(size: Option<u64>, has_parent: bool) -> Seq<RotationStep> {
    if rotates(size, has_parent) {
        rotation_steps()
    } else {
        Seq::empty()
    }
}

/// Decides on a rotation. `size` is the log file's size, if it could be read,
/// and `has_parent` tells whether its path has a parent directory. Returns the
/// steps to carry out, in order; there are none if nothing is to be rotated.
pub fn plan_rotation(size: Option<u64>, has_parent: bool) -> (r: Vec<RotationStep>)
    ensures
        r@ == planned(size, has_parent),
        !has_parent ==> r@.len() == 0,
        size is None ==> r@.len() == 0,
        size matches Some(n) && n <= 10_485_760 ==> r@.len() == 0,
        has_parent && (size matches Some(n) && n > 10_485_760) ==> {
            &&& r@.len() == 4
            &&& r@[0] == RotationStep::Remove(LogFile::Rotated(3))
            &&& r@[1] == (RotationStep::Rename {
                from: LogFile::Rotated(2),
                to: LogFile::Rotated(3),
                only_if_present: true,
            })
            &&& r@[2] == (RotationStep::Rename {
                from: LogFile::Rotated(1),
                to: LogFile::Rotated(2),
                only_if_present: true,
            })
            &&& r@[3] == (RotationStep::Rename {
                from: LogFile::Current,
                to: LogFile::Rotated(1),
                only_if_present: false,
            })
        },
{
    let mut steps: Vec<RotationStep> = Vec::new();
    let size = match size {
        Some(size) => size,
        None => {
            return steps;
        },
    };
    if size <= MAX_LOG_FILE_SIZE || !has_parent {
        return steps;
    }
    steps.push(RotationStep::Remove(LogFile::Rotated(MAX_ROTATED_FILES)));

    // Shift the other rotated files: N → N+1.

    let mut i: u32 = MAX_ROTATED_FILES - 1;
    while i >= 1
        invariant
            i < MAX_ROTATED_FILES,
            steps@ == seq![remove_oldest_step()] + shifts_from((MAX_ROTATED_FILES - 1) as u32).take(
                MAX_ROTATED_FILES - 1 - i,
            ),
        decreases i,
    {
        steps.push(
            RotationStep::Rename {
                from: LogFile::Rotated(i),
                to: LogFile::Rotated(i + 1),
                only_if_present: true,
            },
        );
        i -= 1;
    }
    // Rotate the current log to .1

    steps.push(
        RotationStep::Rename {
            from: LogFile::Current,
            to: LogFile::Rotated(1),
            only_if_present: false,
        },
    );
    steps
}

/// A decimal digit.
pub open spec fn digit(d: nat) -> char {
    ('0' as int + d) as char
}

/// A number in decimal notation, without leading zeros.
pub open spec fn decimal(n: nat) -> Seq<char>
    decreases n,
{
    if n < 10 {
        seq![digit(n)]
    } else {
        decimal(n / 10).push(digit(n % 10))
    }
}

/// The digit `d` as text.
fn digit_text(d: u32) -> (r: &'static str)
    requires
        d < 10,
    ensures
        r@ == seq![digit(d as nat)],
{
    proof {
        reveal_strlit("0");
        reveal_strlit("1");
        reveal_strlit("2");
        reveal_strlit("3");
        reveal_strlit("4");
        reveal_strlit("5");
        reveal_strlit("6");
        reveal_strlit("7");
        reveal_strlit("8");
        reveal_strlit("9");
    }
    match d {
        0 => "0",
        1 => "1",
        2 => "2",
        3 => "3",
        4 => "4",
        5 => "5",
        6 => "6",
        7 => "7",
        8 => "8",
        _ => "9",
    }
}

/// Appends `n` in decimal notation.
fn append_decimal(out: &mut String, n: u32)
    ensures
        final(out)@ == old(out)@ + decimal(n as nat),
    decreases n,
{
    if n >= 10 {
        append_decimal(out, n / 10);
    }
    out.append(digit_text(n % 10));
}

/// The name of rotated file `i`.
pub open spec fn rotated_name(i: u32) -> Seq<char> {
    "network."@ + decimal(i as nat) + ".jsonl"@
}

/// The name of rotated file `i` in the log file's directory.
pub fn rotated_file_name(i: u32) -> (r: String)
    ensures
        r@ == rotated_name(i),
{
    let mut name = "network.".to_string();
    append_decimal(&mut name, i);
    name.append(".jsonl");
    name
}

/// The files of a log directory, by their contents, after one step. Deleting or
/// renaming a file that is not there fails, and leaves the directory as it was.
/// The current log is a file apart from all rotated ones, as it is under the
/// name `network.jsonl` (see [`law_rotated_name_is_not_the_log_name`]).
pub open spec fn step_done<C>(dir: Map<LogFile, C>, step: RotationStep) -> Map<LogFile, C> {
    match step {
        RotationStep::Remove(file) => dir.remove(file),
        RotationStep::Rename { from, to, .. } => if dir.contains_key(from) {
            dir.remove(from).insert(to, dir[from])
        } else {
            dir
        },
    }
}

/// The files of a log directory after a list of steps.
pub open spec fn carried_out<C>(dir: Map<LogFile, C>, steps: Seq<RotationStep>) -> Map<LogFile, C>
    decreases steps.len(),
{
    if steps.len() == 0 {
        dir
    } else {
        step_done(carried_out(dir, steps.drop_last()), steps.last())
    }
}

/// The files of a log directory after a list of steps was attempted, of which
/// only those with `done` succeeded. A step that fails changes nothing, and the
/// steps after it are attempted all the same.
pub open spec fn attempted<C>(
    dir: Map<LogFile, C>,
    steps: Seq<RotationStep>,
    done: Seq<bool>,
) -> Map<LogFile, C>
    recommends
        done.len() == steps.len(),
    decreases steps.len(),
{
    if steps.len() == 0 {
        dir
    } else {
        let before = attempted(dir, steps.drop_last(), done);
        if done[steps.len() - 1] {
            step_done(before, steps.last())
        } else {
            before
        }
    }
}

/// The file that ends up as `file` when a directory is rotated: the current
/// log becomes number 1, number N becomes number N+1, up to the last number.
/// Numbers outside that range are not touched.
pub open spec fn source_of(file: LogFile) -> Option<LogFile> {
    match file {
        LogFile::Current => None,
        LogFile::Rotated(i) => if i == 1 {
            Some(LogFile::Current)
        } else if 1 < i <= MAX_ROTATED_FILES {
            Some(LogFile::Rotated((i - 1) as u32))
        } else {
            Some(file)
        },
    }
}

/// The steps of a rotation, one by one, and the lists they are attempted after.
proof fn lemma_rotation_prefixes()
    ensures
        ({
            let steps = rotation_steps();
            &&& steps == seq![remove_oldest_step(), shift_step(2), shift_step(1), current_step()]
            &&& steps.drop_last() == seq![remove_oldest_step(), shift_step(2), shift_step(1)]
            &&& steps.drop_last().drop_last() == seq![remove_oldest_step(), shift_step(2)]
            &&& steps.drop_last().drop_last().drop_last() == seq![remove_oldest_step()]
        }),
{
    let steps = rotation_steps();
    assert(steps =~= seq![remove_oldest_step(), shift_step(2), shift_step(1), current_step()]);
    assert(steps.drop_last() =~= seq![remove_oldest_step(), shift_step(2), shift_step(1)]);
    assert(steps.drop_last().drop_last() =~= seq![remove_oldest_step(), shift_step(2)]);
    assert(steps.drop_last().drop_last().drop_last() =~= seq![remove_oldest_step()]);
}

/// A rotation that succeeds shifts the files as the scheme says, and touches
/// no others: a file is there afterwards if and only if the file that becomes
/// it was there before, and has that file's contents.
pub proof fn law_rotation_shifts_files<C>(dir: Map<LogFile, C>, file: LogFile)
    ensures
        ({
            let after = carried_out(dir, rotation_steps());
            match source_of(file) {
                Some(source) => {
                    &&& after.contains_key(file) == dir.contains_key(source)
                    &&& dir.contains_key(source) ==> after[file] == dir[source]
                },
                None => !after.contains_key(file),
            }
        }),
{
    lemma_rotation_prefixes();
    reveal_with_fuel(carried_out, 5);
}

/// Only the oldest file is lost: the current log and every rotated file before
/// the last number live on under the next number, and under the last number
/// there is nothing but the file that moved there.
pub proof fn law_rotation_drops_oldest<C>(dir: Map<LogFile, C>)
    ensures
        ({
            let after = carried_out(dir, rotation_steps());
            let last = LogFile::Rotated(MAX_ROTATED_FILES);
            let next_to_last = LogFile::Rotated((MAX_ROTATED_FILES - 1) as u32);
            &&& !after.contains_key(LogFile::Current)
            &&& dir.contains_key(LogFile::Current) ==> after.contains_pair(
                LogFile::Rotated(1),
                dir[LogFile::Current],
            )
            &&& forall|i: u32|
                1 <= i < MAX_ROTATED_FILES && #[trigger] dir.contains_key(LogFile::Rotated(i))
                    ==> after.contains_pair(
                    LogFile::Rotated((i + 1) as u32),
                    dir[LogFile::Rotated(i)],
                )
            &&& after.contains_key(last) <==> dir.contains_key(next_to_last)
        }),
{
    let after = carried_out(dir, rotation_steps());
    law_rotation_shifts_files(dir, LogFile::Current);
    law_rotation_shifts_files(dir, LogFile::Rotated(1));
    law_rotation_shifts_files(dir, LogFile::Rotated(MAX_ROTATED_FILES));
    assert forall|i: u32|
        1 <= i < MAX_ROTATED_FILES && #[trigger] dir.contains_key(
            LogFile::Rotated(i),
        ) implies after.contains_pair(
        LogFile::Rotated((i + 1) as u32),
        dir[LogFile::Rotated(i)],
    ) by {
        law_rotation_shifts_files(dir, LogFile::Rotated((i + 1) as u32));
    }
}

/// No rotation makes a file with a number beyond the last.
pub proof fn law_rotation_keeps_limit<C>(dir: Map<LogFile, C>, i: u32)
    requires
        i > MAX_ROTATED_FILES,
        !dir.contains_key(LogFile::Rotated(i)),
    ensures
        !carried_out(dir, rotation_steps()).contains_key(LogFile::Rotated(i)),
{
    law_rotation_shifts_files(dir, LogFile::Rotated(i));
}

/// A log of more than 10 MiB is rotated: once the plan is carried out, there is
/// no current log, its contents are under number 1, those of number 1 under
/// number 2, those of number 2 under number 3, and no other file has changed.
pub proof fn law_oversized_log_is_rotated<C>(
    size: u64,
    dir: Map<LogFile, C>,
    i: u32,
)
    requires
        size > 10_485_760,
    ensures
        planned(Some(size), true).len() > 0,
        ({
            let after = carried_out(dir, planned(Some(size), true));
            let current = LogFile::Current;
            let one = LogFile::Rotated(1);
            let two = LogFile::Rotated(2);
            let three = LogFile::Rotated(3);
            &&& !after.contains_key(current)
            &&& after.contains_key(one) <==> dir.contains_key(current)
            &&& dir.contains_key(current) ==> after[one] == dir[current]
            &&& after.contains_key(two) <==> dir.contains_key(one)
            &&& dir.contains_key(one) ==> after[two] == dir[one]
            &&& after.contains_key(three) <==> dir.contains_key(two)
            &&& dir.contains_key(two) ==> after[three] == dir[two]
            &&& i == 0 || i > 3 ==> {
                &&& after.contains_key(LogFile::Rotated(i)) <==> dir.contains_key(
                    LogFile::Rotated(i),
                )
                &&& dir.contains_key(LogFile::Rotated(i)) ==> after[LogFile::Rotated(i)]
                    == dir[LogFile::Rotated(i)]
            }
        }),
{
    lemma_rotation_prefixes();
    reveal_with_fuel(carried_out, 5);
}

/// A log of at most 10 MiB, one whose size is not known, and one without a parent
/// directory are left as they are.
pub proof fn law_other_logs_are_left_alone<C>(
    size: Option<u64>,
    has_parent: bool,
    dir: Map<LogFile, C>,
)
    requires
        size is None || size->0 <= 10_485_760 || !has_parent,
    ensures
        planned(size, has_parent).len() == 0,
        carried_out(dir, planned(size, has_parent)) == dir,
{
}

/// Whether a log is rotated depends on its size only through the limit: a log
/// larger than one that is rotated is rotated too.
pub proof fn law_rotation_is_decided_by_the_limit(smaller: u64, larger: u64)
    requires
        smaller <= larger,
    ensures
        planned(Some(smaller), true).len() > 0 ==> planned(Some(larger), true) == planned(
            Some(smaller),
            true,
        ),
        planned(Some(smaller), true).len() > 0 <==> smaller > 10_485_760,
        rotates(Some(smaller), true) <==> smaller > 10_485_760,
        !rotates(Some(smaller), false),
        !rotates(None, true),
{
}

/// What one step does to each file. A removal takes its file away. A renaming
/// of a file that is there moves it, contents and all, over what was at its
/// target. No other file is touched.
pub proof fn law_step_effect<C>(
    dir: Map<LogFile, C>,
    from: LogFile,
    to: LogFile,
    only_if_present: bool,
    other: LogFile,
)
    requires
        from != to,
        other != from,
        other != to,
    ensures
        ({
            let after = step_done(dir, RotationStep::Remove(from));
            &&& !after.contains_key(from)
            &&& after.contains_key(other) <==> dir.contains_key(other)
            &&& dir.contains_key(other) ==> after[other] == dir[other]
        }),
        ({
            let after = step_done(dir, RotationStep::Rename { from, to, only_if_present });
            &&& !after.contains_key(from)
            &&& after.contains_key(to) <==> dir.contains_key(from) || dir.contains_key(to)
            &&& dir.contains_key(from) ==> after[to] == dir[from]
            &&& !dir.contains_key(from) && dir.contains_key(to) ==> after[to] == dir[to]
            &&& after.contains_key(other) <==> dir.contains_key(other)
            &&& dir.contains_key(other) ==> after[other] == dir[other]
        }),
{
}

/// Steps are carried out one after the other, and a step that fails leaves the
/// directory as the steps before it left it.
pub proof fn law_steps_in_order<C>(
    dir: Map<LogFile, C>,
    steps: Seq<RotationStep>,
    step: RotationStep,
    done: Seq<bool>,
)
    requires
        done.len() == steps.len() + 1,
    ensures
        carried_out(dir, Seq::empty()) == dir,
        carried_out(dir, steps.push(step)) == step_done(carried_out(dir, steps), step),
        attempted(dir, Seq::empty(), done) == dir,
        done.last() ==> attempted(dir, steps.push(step), done) == step_done(
            attempted(dir, steps, done),
            step,
        ),
        !done.last() ==> attempted(dir, steps.push(step), done) == attempted(dir, steps, done),
{
    assert(steps.push(step).drop_last() =~= steps);
}

/// Where each file comes from in a rotation.
pub proof fn law_sources(i: u32)
    ensures
        source_of(LogFile::Current) is None,
        source_of(LogFile::Rotated(1)) == Some(LogFile::Current),
        source_of(LogFile::Rotated(2)) == Some(LogFile::Rotated(1)),
        source_of(LogFile::Rotated(3)) == Some(LogFile::Rotated(2)),
        i == 0 || i > 3 ==> source_of(LogFile::Rotated(i)) == Some(LogFile::Rotated(i)),
{
}

/// Where every step succeeds, an attempt carries the steps out.
pub proof fn law_attempt_without_failures<C>(
    dir: Map<LogFile, C>,
    steps: Seq<RotationStep>,
    done: Seq<bool>,
)
    requires
        done.len() >= steps.len(),
        forall|k: int| 0 <= k < steps.len() ==> #[trigger] done[k],
    ensures
        attempted(dir, steps, done) == carried_out(dir, steps),
    decreases steps.len(),
{
    if steps.len() > 0 {
        law_attempt_without_failures(dir, steps.drop_last(), done);
    }
}

/// Whatever fails in a rotation, the current log is not lost: its contents are
/// where they were, or under number 1.
pub proof fn law_rotation_keeps_current_log<C>(dir: Map<LogFile, C>, done: Seq<bool>)
    requires
        done.len() == rotation_steps().len(),
        dir.contains_key(LogFile::Current),
    ensures
        ({
            let after = attempted(dir, rotation_steps(), done);
            ||| after.contains_pair(LogFile::Current, dir[LogFile::Current])
            ||| after.contains_pair(LogFile::Rotated(1), dir[LogFile::Current])
        }),
{
    lemma_rotation_prefixes();
    reveal_with_fuel(attempted, 5);
}

/// Whatever fails in a rotation, a file that is there afterwards is the one that
/// was there before, or the one that the scheme moves to its place.
pub proof fn law_rotation_moves_files_at_most_once<C>(
    dir: Map<LogFile, C>,
    done: Seq<bool>,
    file: LogFile,
)
    requires
        done.len() == rotation_steps().len(),
        attempted(dir, rotation_steps(), done).contains_key(file),
    ensures
        ({
            let contents = attempted(dir, rotation_steps(), done)[file];
            ||| dir.contains_pair(file, contents)
            ||| source_of(file) matches Some(source) && dir.contains_pair(source, contents)
        }),
{
    lemma_rotation_prefixes();
    reveal_with_fuel(attempted, 5);
}

/// Whatever fails in a rotation, no file is touched but the current log and the
/// rotated files up to the last number.
pub proof fn law_rotation_touches_no_other_file<C>(
    dir: Map<LogFile, C>,
    done: Seq<bool>,
    i: u32,
)
    requires
        done.len() == rotation_steps().len(),
        i == 0 || i > MAX_ROTATED_FILES,
    ensures
        ({
            let after = attempted(dir, rotation_steps(), done);
            let file = LogFile::Rotated(i);
            &&& after.contains_key(file) == dir.contains_key(file)
            &&& dir.contains_key(file) ==> after[file] == dir[file]
        }),
{
    lemma_rotation_prefixes();
    reveal_with_fuel(attempted, 5);
}

proof fn lemma_decimal_nonempty(n: nat)
    ensures
        decimal(n).len() >= 1,
        n >= 10 ==> decimal(n).len() >= 2,
    decreases n,
{
    if n >= 10 {
        lemma_decimal_nonempty(n / 10);
    }
}

proof fn lemma_digit_injective(c: nat, d: nat)
    requires
        c < 10,
        d < 10,
        digit(c) == digit(d),
    ensures
        c == d,
{
    assert(digit(c) as int == '0' as int + c);
    assert(digit(d) as int == '0' as int + d);
}

proof fn lemma_decimal_injective(a: nat, b: nat)
    requires
        decimal(a) == decimal(b),
    ensures
        a == b,
    decreases a,
{
    lemma_decimal_nonempty(a);
    lemma_decimal_nonempty(b);
    if a < 10 {
        assert(decimal(a).len() == 1);
        assert(b < 10);
        assert(decimal(a)[0] == digit(a));
        assert(decimal(b)[0] == digit(b));
        lemma_digit_injective(a, b);
    } else {
        assert(decimal(b).len() >= 2);
        assert(b >= 10) by {
            if b < 10 {
                assert(decimal(b).len() == 1);
            }
        }
        assert(decimal(a).last() == digit(a % 10));
        assert(decimal(b).last() == digit(b % 10));
        lemma_digit_injective(a % 10, b % 10);
        assert(decimal(a).drop_last() =~= decimal(a / 10));
        assert(decimal(b).drop_last() =~= decimal(b / 10));
        lemma_decimal_injective(a / 10, b / 10);
        assert(a == 10 * (a / 10) + a % 10);
        assert(b == 10 * (b / 10) + b % 10);
    }
}

/// Rotated files with distinct numbers have distinct names.
pub proof fn law_rotated_names_are_distinct(i: u32, j: u32)
    requires
        rotated_name(i) == rotated_name(j),
    ensures
        i == j,
{
    let prefix = "network."@.len() as int;
    let suffix = ".jsonl"@.len() as int;
    let a = rotated_name(i);
    let b = rotated_name(j);
    assert(a.subrange(prefix, a.len() - suffix) =~= decimal(i as nat));
    assert(b.subrange(prefix, b.len() - suffix) =~= decimal(j as nat));
    lemma_decimal_injective(i as nat, j as nat);
}

/// No rotated file has the name of the current log, `network.jsonl`.
pub proof fn law_rotated_name_is_not_the_log_name(i: u32)
    ensures
        rotated_name(i) != "network.jsonl"@,
{
    reveal_strlit("network.");
    reveal_strlit(".jsonl");
    reveal_strlit("network.jsonl");
    lemma_decimal_nonempty(i as nat);
    assert(rotated_name(i).len() > "network.jsonl"@.len());
}

/// The number that a string of decimal digits stands for.
pub open spec fn value(digits: Seq<char>) -> int
    decreases digits.len(),
{
    if digits.len() == 0 {
        0
    } else {
        value(digits.drop_last()) * 10 + (digits.last() as int - '0' as int)
    }
}

proof fn lemma_decimal_value(n: nat)
    ensures
        value(decimal(n)) == n,
        forall|k: int|
            0 <= k < decimal(n).len() ==> '0' as int <= #[trigger] decimal(n)[k] as int <= '9' as int,
        n > 0 ==> decimal(n)[0] != '0',
        n == 0 ==> decimal(n) == seq!['0'],
    decreases n,
{
    lemma_decimal_nonempty(n);
    reveal_with_fuel(value, 2);
    if n >= 10 {
        lemma_decimal_value(n / 10);
        lemma_decimal_nonempty(n / 10);
        assert(decimal(n).drop_last() =~= decimal(n / 10));
        assert(decimal(n).last() == digit(n % 10));
        assert(digit(n % 10) as int == '0' as int + n % 10);
        assert(n == 10 * (n / 10) + n % 10);
    } else {
        assert(decimal(n).drop_last() =~= Seq::<char>::empty());
        assert(digit(n) as int == '0' as int + n);
    }
}

/// The name of a rotated file is `network.`, its number in decimal digits
/// without leading zeros, and `.jsonl`.
pub proof fn law_rotated_name_shows_number(i: u32)
    ensures
        ({
            let name = rotated_name(i);
            let digits = name.subrange(8, name.len() - 6);
            &&& name.len() >= 15
            &&& name == "network."@ + digits + ".jsonl"@
            &&& value(digits) == i
            &&& forall|k: int|
                0 <= k < digits.len() ==> '0' as int <= #[trigger] digits[k] as int <= '9' as int
            &&& digits.len() > 1 ==> digits[0] != '0'
        }),
{
    reveal_strlit("network.");
    reveal_strlit(".jsonl");
    lemma_decimal_nonempty(i as nat);
    lemma_decimal_value(i as nat);
    let name = rotated_name(i);
    assert(name.subrange(8, name.len() - 6) =~= decimal(i as nat));
}

} // verus!
