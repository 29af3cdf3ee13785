//! The arguments of the command line: finding a parameter, refusing
//! parameters that contradict one another, and sorting loose file names
//! under the parameters they belong to.

use vstd::prelude::*;
use vstd::string::*;

use crate::error::StartupError;
use crate::misc::text::{
    str_begins_with_byte, str_ends_with, str_eq, text_begins_with_byte, text_ends_with,
};

verus! {

/// The command line: the name of the program, then its arguments.
pub type Args = Vec<String>;

/// Which of the switches that a new game takes over were given on the
/// command line.
#[derive(Debug, Clone, Copy, PartialEq, Eq, Structural)]
pub struct ArgMeta {
    pub nomonsters: bool,
    pub respawnparm: bool,
    pub fastparm: bool,
}

impl Default for ArgMeta {
    fn default() -> (r: ArgMeta)
        ensures
            r == (ArgMeta { nomonsters: false, respawnparm: false, fastparm: false }),
    {
        ArgMeta { nomonsters: false, respawnparm: false, fastparm: false }
    }
}

/// The index of the last argument that is exactly `check`.
pub open spec fn position_of(args: Seq<String>, check: Seq<char>) -> Option<int>
    decreases args.len(),
{
    if args.len() == 0 {
        None
    } else if args.last()@ == check {
        Some(args.len() - 1)
    } else {
        position_of(args.drop_last(), check)
    }
}

/// The position of the first of the names `checks` that is among the
/// arguments at all.
pub open spec fn position_of_any(args: Seq<String>, checks: Seq<&str>) -> Option<int>
    decreases checks.len(),
{
    if checks.len() == 0 {
        None
    } else if position_of(args, checks[0]@) is Some {
        position_of(args, checks[0]@)
    } else {
        position_of_any(args, checks.drop_first())
    }
}

/// Whether the arguments ask to record a demo.
pub open spec fn asks_to_record(args: Seq<String>) -> bool {
    ||| position_of(args, "-record"@) is Some
    ||| position_of(args, "-recordfrom"@) is Some
    ||| position_of(args, "-recordfromto"@) is Some
}

/// Whether the arguments ask to play a demo.
pub open spec fn asks_to_play(args: Seq<String>) -> bool {
    ||| position_of(args, "-playdemo"@) is Some
    ||| position_of(args, "-timedemo"@) is Some
    ||| position_of(args, "-fastdemo"@) is Some
}

/// What a position found says: the argument there is the one looked for,
/// and none behind it is.
pub proof fn lemma_position_of(args: Seq<String>, check: Seq<char>)
    ensures
        match position_of(args, check) {
            Some(i) => {
                &&& 0 <= i < args.len()
                &&& args[i]@ == check
                &&& forall|j: int| i < j < args.len() ==> (#[trigger] args[j])@ != check
            },
            None => forall|j: int| 0 <= j < args.len() ==> (#[trigger] args[j])@ != check,
        },
    decreases args.len(),
{
    if args.len() > 0 && args.last()@ != check {
        lemma_position_of(args.drop_last(), check);
        assert forall|j: int| 0 <= j < args.len() - 1 implies args.drop_last()[j] == args[j] by {}
        match position_of(args, check) {
            Some(i) => {
                assert forall|j: int| i < j < args.len() implies (#[trigger] args[j])@ != check by {
                    if j < args.len() - 1 {
                        assert(args.drop_last()[j] == args[j]);
                    }
                }
            },
            None => {
                assert forall|j: int| 0 <= j < args.len() implies (#[trigger] args[j])@
                    != check by {
                    if j < args.len() - 1 {
                        assert(args.drop_last()[j] == args[j]);
                    }
                }
            },
        }
    }
}

/// The kinds of files that may be named loosely, without a parameter.
#[derive(Debug, Clone, Copy, PartialEq, Eq, Structural)]
pub enum LooseKind {
    /// A demo: the name ends in `.lmp`.
    Demo,
    /// A patch: the name ends in `.deh` or `.bex`.
    Patch,
    /// A data archive: any other name.
    Archive,
}

/// The kind of file that a loose name stands for.
pub open spec fn loose_kind(name: Seq<char>) -> LooseKind {
    if text_ends_with(name, ".lmp"@) {
        LooseKind::Demo
    } else if text_ends_with(name, ".deh"@) || text_ends_with(name, ".bex"@) {
        LooseKind::Patch
    } else {
        LooseKind::Archive
    }
}

/// Whether an argument is a switch: it begins with a dash.
pub open spec fn is_switch(arg: Seq<char>) -> bool {
    text_begins_with_byte(arg, 0x2d)
}

/// The arguments as texts.
pub open spec fn texts(args: Seq<String>) -> Seq<Seq<char>> {
    Seq::new(args.len(), |i: int| args[i]@)
}

/// The index of the first switch from index `from` on, or the number of
/// arguments where no switch follows.
pub open spec fn next_switch(args: Seq<Seq<char>>, from: int) -> int
    decreases args.len() - from,
{
    if from >= args.len() {
        args.len() as int
    } else if is_switch(args[from]) {
        from
    } else {
        next_switch(args, from + 1)
    }
}

/// Where the loose names end: at the first switch behind the program's
/// name.
pub open spec fn loose_end(args: Seq<Seq<char>>) -> int {
    next_switch(args, 1)
}

/// Those of `names` that are of the given kind, in their order.
pub open spec fn names_of_kind(names: Seq<Seq<char>>, kind: LooseKind) -> Seq<Seq<char>>
    decreases names.len(),
{
    if names.len() == 0 {
        Seq::<Seq<char>>::empty()
    } else if loose_kind(names.last()) == kind {
        names_of_kind(names.drop_last(), kind).push(names.last())
    } else {
        names_of_kind(names.drop_last(), kind)
    }
}

/// A parameter followed by its files, or nothing at all where there are
/// no files.
pub open spec fn parameter_group(parameter: Seq<char>, files: Seq<Seq<char>>) -> Seq<Seq<char>> {
    if files.len() == 0 {
        files
    } else {
        seq![parameter] + files
    }
}

/// The command line with its loose names sorted under their parameters:
/// the program's name, the archives under `-file`, the patches under
/// `-deh`, the demos under `-playdemo`, and then everything from the
/// first switch on. An empty command line stays empty.
pub open spec fn sorted_command_line(args: Seq<Seq<char>>) -> Seq<Seq<char>> {
    if args.len() == 0 {
        args
    } else {
        let end = loose_end(args);
        let loose = args.subrange(1, end);
        args.subrange(0, 1) + parameter_group(
            "-file"@,
            names_of_kind(loose, LooseKind::Archive),
        ) + parameter_group("-deh"@, names_of_kind(loose, LooseKind::Patch)) + parameter_group(
            "-playdemo"@,
            names_of_kind(loose, LooseKind::Demo),
        ) + args.subrange(end, args.len() as int)
    }
}

/// The first switch lies behind the program's name and within the
/// command line, and no argument between the two is a switch.
pub proof fn lemma_next_switch(args: Seq<Seq<char>>, from: int)
    requires
        0 <= from <= args.len(),
    ensures
        from <= next_switch(args, from) <= args.len(),
        next_switch(args, from) < args.len() ==> is_switch(args[next_switch(args, from)]),
        forall|j: int| from <= j < next_switch(args, from) ==> !is_switch(#[trigger] args[j]),
    decreases args.len() - from,
{
    if from < args.len() && !is_switch(args[from]) {
        lemma_next_switch(args, from + 1);
    }
}

/// Finding parameters among the arguments of the command line.
pub trait ArgList {
    /// The arguments as a sequence.
    spec fn arguments(&self) -> Seq<String>;

    /// Looks for the argument `check`. The result is the index of its last
    /// occurrence, or `None` where it does not occur.
    fn check_parm(&self, check: &str) -> (r: Option<usize>)
        ensures
            r is Some <==> position_of(self.arguments(), check@) is Some,
            r matches Some(i) ==> position_of(self.arguments(), check@) == Some(i as int),
            r matches Some(i) ==> i < self.arguments().len(),
    ;

    /// Looks for any of the arguments `checks`, which are names of one
    /// parameter. The first name that occurs at all decides.
    fn check_parms(&self, checks: &[&str]) -> (r: Option<usize>)
        ensures
            r is Some <==> position_of_any(self.arguments(), checks@) is Some,
            r matches Some(i) ==> position_of_any(self.arguments(), checks@) == Some(i as int),
            r matches Some(i) ==> i < self.arguments().len(),
    ;

    /// Refuses a command line that asks both to record a demo and to play
    /// one.
    fn check_arg_conflicts(&self) -> (r: Result<(), StartupError>)
        ensures
            r is Err <==> asks_to_record(self.arguments()) && asks_to_play(self.arguments()),
            r matches Err(e) ==> e == StartupError::ParameterConflict,
    ;

    /// Sorts loose file names under the parameters they belong to, so
    /// that `game sunlust.wad sl01.lmp` becomes
    /// `game -file sunlust.wad -playdemo sl01.lmp`. Names behind the first
    /// switch are not loose and stay where they are.
    fn handle_loose_files(&mut self)
        ensures
            texts(final(self).arguments()) == sorted_command_line(texts(old(self).arguments())),
    ;
}

impl ArgList for Vec<String> {
    open spec fn arguments(&self) -> Seq<String> {
        self@
    }

    fn check_parm(&self, check: &str) -> (r: Option<usize>) {
        let mut i: usize = self.len();
        assert(self@.subrange(0, i as int) == self@);
        while i > 0
            invariant
                i <= self@.len(),
                position_of(self@, check@) == position_of(self@.subrange(0, i as int), check@),
            decreases i,
        {
            i = i - 1;
            let ghost seen = self@.subrange(0, i + 1);
            assert(seen.last() == self@[i as int]);
            assert(seen.drop_last() == self@.subrange(0, i as int));
            if str_eq(self[i].as_str(), check) {
                return Some(i);
            }
        }
        assert(self@.subrange(0, 0).len() == 0);
        None
    }

    fn check_parms(&self, checks: &[&str]) -> (r: Option<usize>) {
        let mut k: usize = 0;
        assert(checks@.subrange(0, checks@.len() as int) == checks@);
        while k < checks.len()
            invariant
                k <= checks@.len(),
                position_of_any(self@, checks@) == position_of_any(
                    self@,
                    checks@.subrange(k as int, checks@.len() as int),
                ),
            decreases checks@.len() - k,
        {
            let ghost rest = checks@.subrange(k as int, checks@.len() as int);
            assert(rest[0] == checks@[k as int]);
            assert(rest.drop_first() == checks@.subrange(k + 1, checks@.len() as int));
            match self.check_parm(checks[k]) {
                Some(i) => {
                    return Some(i);
                },
                None => {},
            }
            k = k + 1;
        }
        assert(checks@.subrange(k as int, checks@.len() as int).len() == 0);
        None
    }

    fn check_arg_conflicts(&self) -> (r: Result<(), StartupError>) {
        let recording_attempt = self.check_parm("-record").is_some() || self.check_parm(
            "-recordfrom",
        ).is_some() || self.check_parm("-recordfromto").is_some();
        let playback_attempt = self.check_parm("-playdemo").is_some() || self.check_parm(
            "-timedemo",
        ).is_some() || self.check_parm("-fastdemo").is_some();
        if recording_attempt && playback_attempt {
            Err(StartupError::ParameterConflict)
        } else {
            Ok(())
        }
    }

    fn handle_loose_files(&mut self) {
        let ghost before = texts(self@);
        if self.len() == 0 {
            assert(texts(self@) == sorted_command_line(before));
            return ;
        }
        let mut loose_lmps: Vec<String> = Vec::new();
        let mut loose_dehs: Vec<String> = Vec::new();
        let mut loose_wads: Vec<String> = Vec::new();
        let mut end: usize = 1;
        assert(before.subrange(1, 1) == Seq::<Seq<char>>::empty());
        while end < self.len() && !str_begins_with_byte(self[end].as_str(), 0x2d)
            invariant
                1 <= end <= self@.len(),
                before == texts(self@),
                next_switch(before, 1) == next_switch(before, end as int),
                texts(loose_lmps@) == names_of_kind(
                    before.subrange(1, end as int),
                    LooseKind::Demo,
                ),
                texts(loose_dehs@) == names_of_kind(
                    before.subrange(1, end as int),
                    LooseKind::Patch,
                ),
                texts(loose_wads@) == names_of_kind(
                    before.subrange(1, end as int),
                    LooseKind::Archive,
                ),
            decreases self@.len() - end,
        {
            let arg: &str = self[end].as_str();
            let ghost seen = before.subrange(1, end + 1);
            assert(seen.last() == arg@);
            assert(seen.drop_last() == before.subrange(1, end as int));
            if str_ends_with(arg, ".lmp") {
                let ghost old_list = texts(loose_lmps@);
                loose_lmps.push(self[end].clone());
                assert(texts(loose_lmps@) == old_list.push(arg@));
            } else if str_ends_with(arg, ".deh") || str_ends_with(arg, ".bex") {
                let ghost old_list = texts(loose_dehs@);
                loose_dehs.push(self[end].clone());
                assert(texts(loose_dehs@) == old_list.push(arg@));
            } else {
                let ghost old_list = texts(loose_wads@);
                loose_wads.push(self[end].clone());
                assert(texts(loose_wads@) == old_list.push(arg@));
            }
            end = end + 1;
        }
        assert(end == loose_end(before));
        let mut sorted: Vec<String> = Vec::new();
        sorted.push(self[0].clone());
        assert(texts(sorted@) == before.subrange(0, 1));
        push_parameter_group(&mut sorted, "-file", &loose_wads);
        push_parameter_group(&mut sorted, "-deh", &loose_dehs);
        push_parameter_group(&mut sorted, "-playdemo", &loose_lmps);
        let ghost head = texts(sorted@);
        let mut i: usize = end;
        assert(before.subrange(end as int, end as int) == Seq::<Seq<char>>::empty());
        while i < self.len()
            invariant
                end <= i <= self@.len(),
                before == texts(self@),
                texts(sorted@) == head + before.subrange(end as int, i as int),
            decreases self@.len() - i,
        {
            let ghost old_sorted = texts(sorted@);
            sorted.push(self[i].clone());
            assert(texts(sorted@) == old_sorted.push(before[i as int]));
            assert(before.subrange(end as int, i + 1) == before.subrange(end as int, i as int).push(
                before[i as int],
            ));
            i = i + 1;
        }
        *self = sorted;
    }
}

/// Appends a parameter and its files to a command line, or nothing at
/// all where there are no files.
fn push_parameter_group(line: &mut Vec<String>, parameter: &str, files: &Vec<String>)
    ensures
        texts(final(line)@) == texts(old(line)@) + parameter_group(parameter@, texts(files@)),
{
    let ghost start = texts(line@);
    if files.len() == 0 {
        assert(texts(line@) == start + parameter_group(parameter@, texts(files@)));
        return ;
    }
    line.push(parameter.to_owned());
    assert(texts(line@) == start + seq![parameter@]);
    let mut i: usize = 0;
    assert(texts(files@).subrange(0, 0) == Seq::<Seq<char>>::empty());
    while i < files.len()
        invariant
            i <= files@.len(),
            texts(line@) == start + seq![parameter@] + texts(files@).subrange(0, i as int),
        decreases files@.len() - i,
    {
        let ghost old_line = texts(line@);
        line.push(files[i].clone());
        assert(texts(line@) == old_line.push(files@[i as int]@));
        assert(texts(files@).subrange(0, i + 1) == texts(files@).subrange(0, i as int).push(
            files@[i as int]@,
        ));
        i = i + 1;
    }
    assert(texts(files@).subrange(0, i as int) == texts(files@));
    assert(start + seq![parameter@] + texts(files@) == start + (seq![parameter@] + texts(files@)));
}

} // verus!
