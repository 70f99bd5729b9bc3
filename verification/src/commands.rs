use vstd::prelude::*;

use crate::active::{toggled, ActivePlayers};
use crate::damager::{
    damager_names, has_matching_name, invalid_arg_msg_for, is_listing_of, joined, name_matches,
    string_views, Damager, DamagerRegistry, DamagerView,
};
use crate::soup::SoupStats;

verus! {

/// The message for an unknown damager name, listing `names` in their order,
/// separated by `", "`.
pub fn invalid_arg_msg(names: &Vec<String>) -> (res: String)
    ensures
        res@ == invalid_arg_msg_for(string_views(names@)),
{
    let mut msg = String::from_str("Invalid argument. Possible options are: ");
    let ghost prefix = msg@;
    let ghost views = string_views(names@);
    let n = names.len();
    for i in 0..n
        invariant
            n == names.len(),
            views == string_views(names@),
            prefix == "Invalid argument. Possible options are: "@,
            msg@ == prefix + joined(views.take(i as int), ", "@),
    {
        let ghost before = views.take(i as int);
        proof {
            assert(views.take(i + 1).drop_last() =~= before);
            assert(views.take(i + 1).last() == names@[i as int]@);
        }
        if i != 0 {
            msg.append(", ");
        } else {
            assert(views.take(1) =~= seq![names@[0]@]);
        }
        msg.append(names[i].as_str());
        proof {
            if i == 0 {
                assert(msg@ =~= prefix + joined(views.take(1), ", "@));
            } else {
                assert(msg@ =~= prefix + joined(views.take(i + 1), ", "@));
            }
        }
    }
    assert(views.take(n as int) =~= views);
    msg
}

/// The message that answers an unknown damager name: every registered damager's
/// name once, in the registry's own order, separated by `", "`.
pub fn build_invalid_arg_msg(registry: &DamagerRegistry) -> (res: String)
    ensures
        exists|order: Seq<DamagerView>|
            is_listing_of(order, registry@) && #[trigger] res@ == invalid_arg_msg_for(damager_names(order)),
{
    let names = registry.names();
    invalid_arg_msg(&names)
}


/// A failed damager command, as the command dispatcher reports it.
#[derive(Clone, Debug, PartialEq, Eq)]
pub enum DamagerCommandError {
    /// The command ran and failed; the text tells the player why.
    CommandFailed(String),
    /// The named argument was not consumed as expected.
    InvalidConsumption(Option<String>),
}

/// `msg` is an invalid-argument message for the registry: all its names, each
/// once, in some order.
pub open spec fn is_invalid_arg_msg(registry: Set<DamagerView>, msg: Seq<char>) -> bool {
    exists|order: Seq<DamagerView>|
        is_listing_of(order, registry) && #[trigger] invalid_arg_msg_for(damager_names(order)) == msg
}

/// Reads and checks the damager argument of the damager command.
pub struct DamagerArgumentConsumer;

impl DamagerArgumentConsumer {
    /// The argument's name where none is given.
    pub fn default_name(&self) -> (res: &'static str)
        ensures
            res@ == "damager"@,
    {
        "damager"
    }

    /// Takes the next raw argument if it names a registered damager up to ASCII
    /// case; otherwise nothing.
    pub fn consume<'a>(&self, registry: &DamagerRegistry, arg: Option<&'a str>) -> (res: Option<&'a str>)
        ensures
            res == (match arg {
                Some(s) => if has_matching_name(registry@, s@) {
                    Some(s)
                } else {
                    None
                },
                None => None,
            }),
    {
        match arg {
            Some(s) => {
                if registry.contains_name(s) {
                    Some(s)
                } else {
                    None
                }
            },
            None => None,
        }
    }

    /// The suggestions for the argument: every registered damager's name once.
    pub fn suggest(&self, registry: &DamagerRegistry) -> (res: Vec<String>)
        ensures
            exists|order: Seq<DamagerView>|
                is_listing_of(order, registry@) && #[trigger] string_views(res@) == damager_names(order),
    {
        registry.names()
    }

    /// The damager that the consumed argument `name` holds: `arg` is what was
    /// consumed under that name, `None` where nothing plain was.
    pub fn find_arg(registry: &DamagerRegistry, arg: Option<&str>, name: &str) -> (res: Result<Damager, DamagerCommandError>)
        ensures
            match arg {
                Some(s) => match res {
                    Ok(d) => registry@.contains(d@) && name_matches(d@, s@),
                    Err(DamagerCommandError::CommandFailed(msg)) => !has_matching_name(registry@, s@)
                        && is_invalid_arg_msg(registry@, msg@),
                    Err(DamagerCommandError::InvalidConsumption(_)) => false,
                },
                None => res matches Err(DamagerCommandError::InvalidConsumption(Some(n))) && n@ == name@,
            },
    {
        broadcast use vstd::string::group_string_axioms;
        match arg {
            Some(s) => match registry.find(s) {
                Some(d) => Ok(d),
                None => Err(DamagerCommandError::CommandFailed(build_invalid_arg_msg(registry))),
            },
            None => Err(DamagerCommandError::InvalidConsumption(Some(name.to_string()))),
        }
    }
}

/// What a damager command did to the player's session.
#[derive(Clone, Debug, PartialEq, Eq)]
pub enum DamagerToggle {
    /// No input: nothing happened.
    Ignored,
    /// The session with this damager started; the soup counts were reset.
    Started(Damager),
    /// The running session stopped.
    Stopped(Damager),
}

/// Runs the damager command for player `id` with the given input: an unknown
/// damager name is refused with the list of names; a known one toggles the
/// player's session, and a session that starts has its soup counts reset to 0.
pub fn handle_input(
    registry: &DamagerRegistry,
    active: &mut ActivePlayers,
    stats: &mut SoupStats,
    input: Option<&str>,
    id: u128,
) -> (res: Result<DamagerToggle, DamagerCommandError>)
    requires
        old(stats).wf(),
    ensures
        final(stats).wf(),
        match input {
            None => res == Ok::<DamagerToggle, DamagerCommandError>(DamagerToggle::Ignored)
                && final(active)@ == old(active)@ && *final(stats) == *old(stats),
            Some(s) => if !has_matching_name(registry@, s@) {
                &&& res matches Err(DamagerCommandError::CommandFailed(msg))
                    && is_invalid_arg_msg(registry@, msg@)
                &&& final(active)@ == old(active)@
                &&& *final(stats) == *old(stats)
            } else {
                &&& final(active)@ == toggled(old(active)@, id)
                &&& res matches Ok(t)
                &&& match t {
                    DamagerToggle::Started(d) => {
                        &&& registry@.contains(d@) && name_matches(d@, s@)
                        &&& !old(active)@.contains(id)
                        &&& final(stats).consumed_view() == old(stats).consumed_view().insert(id, 0)
                        &&& final(stats).accurate_view() == old(stats).accurate_view().insert(id, 0)
                    },
                    DamagerToggle::Stopped(d) => {
                        &&& registry@.contains(d@) && name_matches(d@, s@)
                        &&& old(active)@.contains(id)
                        &&& *final(stats) == *old(stats)
                    },
                    DamagerToggle::Ignored => false,
                }
            },
        },
{
    let s = match input {
        Some(s) => s,
        None => return Ok(DamagerToggle::Ignored),
    };
    match registry.find(s) {
        Some(damager) => {
            active.toggle_damager(id);
            if active.is_active(id) {
                stats.reset(id);
                Ok(DamagerToggle::Started(damager))
            } else {
                Ok(DamagerToggle::Stopped(damager))
            }
        },
        None => Err(DamagerCommandError::CommandFailed(build_invalid_arg_msg(registry))),
    }
}

} // verus!
