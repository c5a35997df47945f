//! The driver: wires registry to builder to provider to lifecycle, and
//! collects the operator-visible report, one line per lifecycle step.

use vstd::prelude::*;

use crate::builder::ProviderBuilder;
use crate::builder::RegisteredBuilder;
use crate::kind::ResourceKind;
use crate::lifecycle::ProviderSession;
use crate::outcome::describe_outcome;
use crate::provider::status_text;
use crate::provider::BuiltProvider;
use crate::provider::Provider;
use crate::registry::lookup_in;
use crate::registry::Registry;

verus! {

/// The four lines reported for one provider: the init outcome, the
/// provider's own status line, the run outcome, and the exit outcome.
pub open spec fn provider_report(k: ResourceKind) -> Seq<Seq<char>> {
    seq!["not implemented"@, status_text(k), "success"@, "not implemented"@]
}

/// The whole report of a driver pass: the three known kinds in the
/// fixed order `user`, `group`, `file`, four lines each.
pub open spec fn full_report() -> Seq<Seq<char>> {
    provider_report(ResourceKind::User) + provider_report(ResourceKind::Group)
        + provider_report(ResourceKind::File)
}

/// What a driver pass over an arbitrary registry reports: nothing when
/// some known kind fails to resolve (the fatal condition), otherwise
/// the report of the three resolved builders' providers in order.
pub open spec fn driver_report(
    entries: Seq<(ResourceKind, RegisteredBuilder)>,
) -> Option<Seq<Seq<char>>> {
    let user = lookup_in(entries, ResourceKind::User);
    let group = lookup_in(entries, ResourceKind::Group);
    let file = lookup_in(entries, ResourceKind::File);
    if user is Some && group is Some && file is Some {
        Some(
            provider_report(user->0.built().kind()) + provider_report(group->0.built().kind())
                + provider_report(file->0.built().kind()),
        )
    } else {
        None
    }
}

/// Drives one provider through its full lifecycle, in order and each
/// step exactly once, and reports one line per step (with the
/// provider's own status line ahead of the run outcome).
pub fn drive_provider(p: BuiltProvider) -> (lines: Vec<&'static str>)
    ensures
        lines.deep_view() == provider_report(p.kind()),
{
    let ghost k = p.kind();
    let mut session = ProviderSession::new(p);
    let mut lines: Vec<&'static str> = Vec::new();
    let r_init = session.init();
    lines.push(describe_outcome(&r_init));
    lines.push(session.status_line());
    let r_run = session.run();
    lines.push(describe_outcome(&r_run));
    let r_exit = session.exit();
    lines.push(describe_outcome(&r_exit));
    proof {
        assert(lines.deep_view() =~= provider_report(k));
    }
    lines
}

/// One driver pass: resolves each known kind, builds its provider, and
/// drives it through the lifecycle. `None` — the fatal condition — if
/// and only if some known kind fails to resolve; on a well-formed
/// registry the pass always completes and reports the full fixed text.
pub fn drive(reg: &Registry) -> (r: Option<Vec<&'static str>>)
    ensures
        match r {
            Some(lines) => driver_report(reg@) == Some(lines.deep_view()),
            None => driver_report(reg@) is None,
        },
        reg.wf() ==> r is Some,
        reg.wf() ==> (r matches Some(lines) && lines.deep_view() == full_report()),
{
    let user_builder = match reg.lookup(ResourceKind::User) {
        Some(b) => b,
        None => {
            return None;
        },
    };
    let group_builder = match reg.lookup(ResourceKind::Group) {
        Some(b) => b,
        None => {
            return None;
        },
    };
    let file_builder = match reg.lookup(ResourceKind::File) {
        Some(b) => b,
        None => {
            return None;
        },
    };
    let mut lines = drive_provider(user_builder.build());
    let mut group_lines = drive_provider(group_builder.build());
    let mut file_lines = drive_provider(file_builder.build());
    lines.append(&mut group_lines);
    lines.append(&mut file_lines);
    proof {
        assert(lines.deep_view() =~= provider_report(user_builder.built().kind())
            + provider_report(group_builder.built().kind())
            + provider_report(file_builder.built().kind()));
    }
    Some(lines)
}

} // verus!
