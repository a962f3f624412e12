use vstd::prelude::*;

use crate::config::Config;

verus! {

broadcast use vstd::string::group_string_axioms;

/// One registered content provider: its display title and whether its
/// one-time setup completed. A provider whose setup failed stays registered
/// with `initialized` false, and later callers must tolerate it.
#[derive(Debug, PartialEq, Eq)]
pub struct Provider {
    pub title: String,
    pub initialized: bool,
}

/// One reported setup failure: the title of the provider whose setup failed
/// and the failure detail. Exactly one report is produced per failure.
#[derive(Debug, PartialEq, Eq)]
pub struct SetupDiagnostic {
    pub title: String,
    pub detail: String,
}

/// Instantiates the providers whose configuration section is present, in
/// configuration order, none of them set up yet. This build compiles in one
/// provider, the local-filesystem one.
pub fn configured_providers(config: &Config) -> (r: Vec<Provider>)
    ensures
        config.local is Some ==> r@.len() == 1 && r@[0].title@ == "local"@
            && !r@[0].initialized,
        config.local is None ==> r@.len() == 0,
{
    let mut r: Vec<Provider> = Vec::new();
    if config.local.is_some() {
        r.push(Provider { title: "local".to_string(), initialized: false });
    }
    r
}

/// The failure reports owed for the given providers and per-provider setup
/// outcomes, in provider order: one `(title, detail)` pair per failed setup.
pub open spec fn failure_reports(
    ps: Seq<Provider>,
    os: Seq<Result<(), String>>,
) -> Seq<(Seq<char>, Seq<char>)>
    decreases ps.len(),
{
    if ps.len() == 0 {
        Seq::empty()
    } else {
        let rest = failure_reports(ps.drop_last(), os.drop_last());
        match os.last() {
            Ok(_) => rest,
            Err(d) => rest.push((ps.last().title@, d@)),
        }
    }
}

pub open spec fn report_views(ds: Seq<SetupDiagnostic>) -> Seq<(Seq<char>, Seq<char>)> {
    ds.map_values(|d: SetupDiagnostic| (d.title@, d.detail@))
}

/// Applies the one-time setup outcomes to the registry: setup runs exactly
/// once per provider, strictly in configuration order. A failed setup does
/// not remove the provider and does not abort startup; it leaves the
/// provider registered but uninitialized and yields exactly one diagnostic
/// carrying that provider's title and the failure detail.
pub fn setup_providers(providers: Vec<Provider>, outcomes: &Vec<Result<(), String>>) -> (r: (
    Vec<Provider>,
    Vec<SetupDiagnostic>,
))
    requires
        outcomes@.len() == providers@.len(),
    ensures
        r.0@.len() == providers@.len(),
        forall|i: int|
            0 <= i < providers@.len() ==> r.0@[i].title@ == providers@[i].title@,
        forall|i: int|
            0 <= i < providers@.len() ==> r.0@[i].initialized == (outcomes@[i] is Ok),
        report_views(r.1@) == failure_reports(providers@, outcomes@),
{
    let mut registry: Vec<Provider> = Vec::new();
    let mut reports: Vec<SetupDiagnostic> = Vec::new();
    let mut i: usize = 0;
    while i < providers.len()
        invariant
            i <= providers@.len(),
            outcomes@.len() == providers@.len(),
            registry@.len() == i,
            forall|j: int| 0 <= j < i ==> registry@[j].title@ == providers@[j].title@,
            forall|j: int| 0 <= j < i ==> registry@[j].initialized == (outcomes@[j] is Ok),
            report_views(reports@) == failure_reports(
                providers@.subrange(0, i as int),
                outcomes@.subrange(0, i as int),
            ),
        decreases providers@.len() - i,
    {
        let ok = match &outcomes[i] {
            Ok(_) => true,
            Err(detail) => {
                reports.push(
                    SetupDiagnostic {
                        title: providers[i].title.clone(),
                        detail: detail.clone(),
                    },
                );
                false
            },
        };
        registry.push(Provider { title: providers[i].title.clone(), initialized: ok });
        proof {
            let ps = providers@.subrange(0, i + 1);
            let os = outcomes@.subrange(0, i + 1);
            assert(ps.drop_last() =~= providers@.subrange(0, i as int));
            assert(os.drop_last() =~= outcomes@.subrange(0, i as int));
            assert(report_views(reports@) =~= failure_reports(ps, os));
        }
        i = i + 1;
    }
    proof {
        assert(providers@.subrange(0, providers@.len() as int) =~= providers@);
        assert(outcomes@.subrange(0, outcomes@.len() as int) =~= outcomes@);
    }
    (registry, reports)
}

} // verus!
