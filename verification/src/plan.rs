//! The rename plan: a validated pattern pair, and the decision taken for
//! each directory entry.

use crate::entry::RawEntry;
use crate::entry::SkipReason;
use crate::entry::classify;
use crate::entry::entry_accepted;
use crate::entry::entry_name;
use crate::pattern::Pattern;
use crate::pattern::regex_ok;
use crate::pattern::rewritten;
use vstd::prelude::*;
use vstd::string::StringExecFns;

verus! {

/// Why a pattern pair is rejected; each variant carries the compiler's
/// error.  Either failure aborts the whole run.
#[derive(Debug)]
pub enum PlanError {
    /// The "from" pattern does not compile.
    BadFrom(regex::Error),
    /// The "to" template does not compile as a regular expression.  It is
    /// only ever used as replacement text, but ill-formed ones are
    /// rejected all the same.
    BadTo(regex::Error),
}

/// What the pass does with one accepted entry.
#[derive(Debug, Clone, PartialEq, Eq)]
pub enum Action {
    /// Preview: a line `old -> new` to print.
    Report(String),
    /// Preview of an identity rename: nothing to show.
    Keep,
    /// Apply mode: rename `old` to `new` within the working directory.
    Rename { old: String, new: String },
}

/// The preview line printed for a changed name.
pub open spec fn preview_line(old: Seq<char>, new: Seq<char>) -> Seq<char> {
    old + " -> "@ + new
}

/// The action owed for the name `old` under the pattern `from`, the
/// template `to` and the given mode: in apply mode always a rename to the
/// rewritten name; in preview mode a report exactly when the rewritten
/// name differs from the old one.
pub open spec fn action_for(
    from: Seq<char>,
    to: Seq<char>,
    old: Seq<char>,
    force: bool,
    a: Action,
) -> bool {
    let new = rewritten(from, old, to);
    if force {
        a matches Action::Rename { old: o, new: n } && o@ == old && n@ == new
    } else if new == old {
        a is Keep
    } else {
        a matches Action::Report(line) && line@ == preview_line(old, new)
    }
}

/// A validated pattern pair: the compiled "from" pattern and the raw "to"
/// replacement template.
pub struct Plan {
    from: Pattern,
    to: String,
}

impl Plan {
    /// The text of the "from" pattern.
    pub closed spec fn from_pat(&self) -> Seq<char> {
        self.from@
    }

    /// The text of the "to" replacement template.
    pub closed spec fn to_template(&self) -> Seq<char> {
        self.to@
    }

    /// Build a plan from the two pattern texts.  Both must compile as
    /// regular expressions, the "from" pattern checked first; the "to"
    /// text is validated that way purely as an input-sanity measure and then
    /// kept as the raw replacement template.
    pub fn new(from: &str, to: &str) -> (r: Result<Plan, PlanError>)
        ensures
            r is Ok <==> regex_ok(from@) && regex_ok(to@),
            r matches Ok(p) ==> p.from_pat() == from@ && p.to_template() == to@,
            !regex_ok(from@) ==> r matches Err(PlanError::BadFrom(_)),
            regex_ok(from@) && !regex_ok(to@) ==> r matches Err(PlanError::BadTo(_)),
    {
        let from_pattern = match Pattern::compile(from) {
            Ok(p) => p,
            Err(e) => {
                return Err(PlanError::BadFrom(e));
            },
        };
        match Pattern::compile(to) {
            Ok(_) => Ok(Plan { from: from_pattern, to: to.to_owned() }),
            Err(e) => Err(PlanError::BadTo(e)),
        }
    }

    /// Decide what the pass does with one accepted name: in apply mode a
    /// rename to the rewritten name, identity renames included; in
    /// preview mode a report of `old -> new` exactly when the name
    /// changes, and nothing otherwise.
    pub fn decide(&self, old: &str, force: bool) -> (a: Action)
        ensures
            action_for(self.from_pat(), self.to_template(), old@, force, a),
    {
        let new = self.from.replace_first(old, self.to.as_str());
        let old_owned = old.to_owned();
        if force {
            Action::Rename { old: old_owned, new }
        } else if old_owned == new {
            Action::Keep
        } else {
            Action::Report(old_owned.concat(" -> ").concat(new.as_str()))
        }
    }

    /// Take one directory entry through the whole pass: admit or skip it as
    /// `classify` does, then decide as `decide` does.  A skipped entry
    /// skips nothing but itself.
    pub fn process_entry(&self, e: &RawEntry, force: bool) -> (r: Result<Action, SkipReason>)
        ensures
            r is Ok <==> entry_accepted(*e),
            r matches Ok(a) ==> action_for(
                self.from_pat(),
                self.to_template(),
                entry_name(*e),
                force,
                a,
            ),
            e.is_dir ==> r == Err::<Action, SkipReason>(SkipReason::Directory),
            !e.is_dir && e.name is Missing ==> r == Err::<Action, SkipReason>(SkipReason::NoName),
            !e.is_dir && e.name is NotUtf8 ==> r == Err::<Action, SkipReason>(SkipReason::NotUtf8),
            !e.is_dir && e.name is Text && !e.has_parent ==> r == Err::<Action, SkipReason>(
                SkipReason::NoParent,
            ),
    {
        match classify(e) {
            Ok(name) => Ok(self.decide(name.as_str(), force)),
            Err(reason) => Err(reason),
        }
    }
}

/// The one-line notice printed before a preview run, and only then.
pub fn banner(force: bool) -> (r: Option<String>)
    ensures
        r is Some <==> !force,
        r matches Some(s) ==> s@ == "Changes to be applied if you pass -f:"@,
{
    if force {
        None
    } else {
        Some("Changes to be applied if you pass -f:".to_owned())
    }
}

/// The names a run in apply mode renames the given names to, entry by
/// entry.
pub open spec fn run_targets(from: Seq<char>, to: Seq<char>, names: Seq<Seq<char>>) -> Seq<
    Seq<char>,
> {
    names.map_values(|n: Seq<char>| rewritten(from, n, to))
}

/// The pattern pair maps every name a run produces from `names` back to
/// itself: its own output is a fixed point.
pub open spec fn outputs_fixed(from: Seq<char>, to: Seq<char>, names: Seq<Seq<char>>) -> bool {
    forall|i: int|
        0 <= i < names.len() ==> rewritten(from, rewritten(from, #[trigger] names[i], to), to)
            == rewritten(from, names[i], to)
}

/// Law: a run in preview mode reports a name exactly when the rewritten
/// name differs from it, and stays silent otherwise.
pub proof fn lemma_preview_report_iff(
    from: Seq<char>,
    to: Seq<char>,
    old: Seq<char>,
    a: Action,
)
    requires
        action_for(from, to, old, false, a),
    ensures
        a is Report <==> rewritten(from, old, to) != old,
        a is Keep <==> rewritten(from, old, to) == old,
{
}

/// Law: a run in apply mode renames every accepted name, the rename
/// target being the rewritten name, identity renames included.
pub proof fn lemma_apply_always_renames(
    from: Seq<char>,
    to: Seq<char>,
    old: Seq<char>,
    a: Action,
)
    requires
        action_for(from, to, old, true, a),
    ensures
        a matches Action::Rename { old: o, new: n } && o@ == old && n@ == rewritten(from, old, to),
{
}

/// Law: running the pass twice in apply mode changes nothing the second
/// time when the pattern pair maps its own output back to a fixed point:
/// the second run's targets are the first run's targets themselves, so
/// every rename of the second run is an identity rename.
pub proof fn lemma_second_run_fixed(plan: &Plan, names: Seq<Seq<char>>)
    requires
        outputs_fixed(plan.from_pat(), plan.to_template(), names),
    ensures
        run_targets(
            plan.from_pat(),
            plan.to_template(),
            run_targets(plan.from_pat(), plan.to_template(), names),
        ) == run_targets(plan.from_pat(), plan.to_template(), names),
{
    let from = plan.from_pat();
    let to = plan.to_template();
    let first = run_targets(from, to, names);
    let second = run_targets(from, to, first);
    assert forall|i: int| 0 <= i < second.len() implies second[i] == first[i] by {
        assert(first[i] == rewritten(from, names[i], to));
        assert(second[i] == rewritten(from, first[i], to));
    }
    assert(second =~= first);
}

} // verus!
