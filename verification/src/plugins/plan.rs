//! The execution plan: validating its plugin entries, choosing which plan file to
//! use, and the event subscriptions it sets up.
use vstd::prelude::*;
use crate::text::{
    concat2, decimal, is_blank, is_blank_str, owned, push_decimal, push_str, str_eq, trim_end_char,
    trim_end_char_str,
};
use crate::plugins::metadata::PluginMetadata;

verus! {

/// Where updated plans come from and which one to fetch.
pub struct PlanGeneral {
    /// `"s3"`, `"local"` or `"unc"`.
    pub update_from: String,
    pub update_path_root: String,
    pub product_family: String,
    pub execution_plan_version: String,
}

/// Events at which control passes from plan plugins back to the core plugins.
pub struct PlanHandoffs {
    pub handoff_events: Vec<String>,
}

/// The plan: the plugins to load, and how to update and hand off.
pub struct PluginExecutionPlan {
    pub plugins: Vec<PluginMetadata>,
    pub general: PlanGeneral,
    pub handoffs: PlanHandoffs,
}

/// A required field of a plugin entry.
#[derive(PartialEq, Eq, Structural, Clone, Copy)]
pub enum PluginField {
    FullName,
    PluginRoute,
    Version,
    PluginLocationPath,
    TeamName,
    EngineeringContactEmail,
    OperationContactEmail,
}

impl PluginField {
    /// The field's name in messages.
    pub open spec fn label(self) -> Seq<char> {
        match self {
            PluginField::FullName => "full_name"@,
            PluginField::PluginRoute => "plugin_route"@,
            PluginField::Version => "version"@,
            PluginField::PluginLocationPath => "plugin_location_path"@,
            PluginField::TeamName => "team_name"@,
            PluginField::EngineeringContactEmail => "engineering_contact_email"@,
            PluginField::OperationContactEmail => "operation_contact_email"@,
        }
    }

    /// The field's name in messages.
    pub fn label_str(&self) -> (r: &'static str)
        ensures
            r@ == self.label(),
    {
        match self {
            PluginField::FullName => "full_name",
            PluginField::PluginRoute => "plugin_route",
            PluginField::Version => "version",
            PluginField::PluginLocationPath => "plugin_location_path",
            PluginField::TeamName => "team_name",
            PluginField::EngineeringContactEmail => "engineering_contact_email",
            PluginField::OperationContactEmail => "operation_contact_email",
        }
    }
}

/// Why a plan was refused.
#[derive(PartialEq, Eq, Structural, Clone, Copy)]
pub enum PlanError {
    /// The plugin at `index` leaves `field` blank.
    MissingField { index: usize, field: PluginField },
    /// The plugin at `index` has a location type other than `local` and `s3`.
    InvalidLocationType { index: usize },
}

/// The text of a refusal.
pub open spec fn plan_error_message(e: PlanError) -> Seq<char> {
    match e {
        PlanError::MissingField { index, field } => "Plugin at index "@ + decimal(index as nat)
            + " is missing '"@ + field.label() + "'"@,
        PlanError::InvalidLocationType { index } => "Plugin at index "@ + decimal(index as nat)
            + " has invalid 'plugin_location_type': must be 'local' or 's3'"@,
    }
}

impl PlanError {
    /// The text of the refusal.
    pub fn message(&self) -> (r: String)
        ensures
            r@ == plan_error_message(*self),
    {
        let mut r = owned("Plugin at index ");
        match self {
            PlanError::MissingField { index, field } => {
                push_decimal(&mut r, *index as u64);
                push_str(&mut r, " is missing '");
                push_str(&mut r, field.label_str());
                push_str(&mut r, "'");
            },
            PlanError::InvalidLocationType { index } => {
                push_decimal(&mut r, *index as u64);
                push_str(&mut r, " has invalid 'plugin_location_type': must be 'local' or 's3'");
            },
        }
        r
    }
}

/// The first problem with one plugin entry, checking its fields in order.
pub open spec fn plugin_problem(p: PluginMetadata, index: usize) -> Option<PlanError> {
    if is_blank(p.name@) {
        Some(PlanError::MissingField { index, field: PluginField::FullName })
    } else if is_blank(p.plugin_route@) {
        Some(PlanError::MissingField { index, field: PluginField::PluginRoute })
    } else if is_blank(p.version@) {
        Some(PlanError::MissingField { index, field: PluginField::Version })
    } else if p.plugin_location_type@ != "local"@ && p.plugin_location_type@ != "s3"@ {
        Some(PlanError::InvalidLocationType { index })
    } else if is_blank(p.plugin_base_path@) {
        Some(PlanError::MissingField { index, field: PluginField::PluginLocationPath })
    } else if is_blank(p.team_name@) {
        Some(PlanError::MissingField { index, field: PluginField::TeamName })
    } else if is_blank(p.engineering_contact_email@) {
        Some(PlanError::MissingField { index, field: PluginField::EngineeringContactEmail })
    } else if is_blank(p.operation_contact_email@) {
        Some(PlanError::MissingField { index, field: PluginField::OperationContactEmail })
    } else {
        None
    }
}

/// The first problem in a list of plugin entries, if any.
pub open spec fn plan_problem(ps: Seq<PluginMetadata>) -> Option<PlanError>
    decreases ps.len(),
{
    if ps.len() == 0 {
        None
    } else {
        match plan_problem(ps.drop_last()) {
            Some(e) => Some(e),
            None => plugin_problem(ps.last(), (ps.len() - 1) as usize),
        }
    }
}

/// The outcome of checking for a problem.
pub open spec fn outcome(p: Option<PlanError>) -> Result<(), PlanError> {
    match p {
        Some(e) => Err(e),
        None => Ok(()),
    }
}

/// Checks plans after they are read.
pub struct ExecutionPlanLoader;

impl ExecutionPlanLoader {
    /// Checks the required fields of the plugin at `index`.
    pub fn validate_plugin(plugin: &PluginMetadata, index: usize) -> (r: Result<(), PlanError>)
        ensures
            r == outcome(plugin_problem(*plugin, index)),
    {
        proof {
            reveal_strlit("local");
            reveal_strlit("s3");
        }
        if is_blank_str(plugin.name.as_str()) {
            return Err(PlanError::MissingField { index, field: PluginField::FullName });
        }
        if is_blank_str(plugin.plugin_route.as_str()) {
            return Err(PlanError::MissingField { index, field: PluginField::PluginRoute });
        }
        if is_blank_str(plugin.version.as_str()) {
            return Err(PlanError::MissingField { index, field: PluginField::Version });
        }
        let kind = plugin.plugin_location_type.as_str();
        if !str_eq(kind, "local") && !str_eq(kind, "s3") {
            return Err(PlanError::InvalidLocationType { index });
        }
        if is_blank_str(plugin.plugin_base_path.as_str()) {
            return Err(PlanError::MissingField { index, field: PluginField::PluginLocationPath });
        }
        if is_blank_str(plugin.team_name.as_str()) {
            return Err(PlanError::MissingField { index, field: PluginField::TeamName });
        }
        if is_blank_str(plugin.engineering_contact_email.as_str()) {
            return Err(PlanError::MissingField { index, field: PluginField::EngineeringContactEmail });
        }
        if is_blank_str(plugin.operation_contact_email.as_str()) {
            return Err(PlanError::MissingField { index, field: PluginField::OperationContactEmail });
        }
        Ok(())
    }

    /// Checks every plugin entry of a plan; reports the first problem.
    pub fn validate_plan(plan: &PluginExecutionPlan) -> (r: Result<(), PlanError>)
        ensures
            r == outcome(plan_problem(plan.plugins@)),
    {
        let n = plan.plugins.len();
        let mut i: usize = 0;
        while i < n
            invariant
                n == plan.plugins@.len(),
                i <= n,
                plan_problem(plan.plugins@.take(i as int)) is None,
            decreases n - i,
        {
            let ghost ps = plan.plugins@.take(i + 1);
            assert(ps.drop_last() =~= plan.plugins@.take(i as int));
            match Self::validate_plugin(&plan.plugins[i], i) {
                Err(e) => {
                    assert(plan_problem(ps) == Some(e));
                    proof {
                        lemma_first_problem_kept(plan.plugins@, i + 1);
                    }
                    return Err(e);
                },
                Ok(()) => {},
            }
            i += 1;
        }
        assert(plan.plugins@.take(n as int) =~= plan.plugins@);
        Ok(())
    }
}

/// A problem found in a prefix is the plan's first problem.
proof fn lemma_first_problem_kept(ps: Seq<PluginMetadata>, k: int)
    requires
        0 <= k <= ps.len(),
        plan_problem(ps.take(k)) is Some,
    ensures
        plan_problem(ps) == plan_problem(ps.take(k)),
    decreases ps.len() - k,
{
    if k < ps.len() {
        assert(ps.take(k + 1).drop_last() =~= ps.take(k));
        lemma_first_problem_kept(ps, k + 1);
    } else {
        assert(ps.take(k) =~= ps);
    }
}

/// A plan passes validation exactly when each of its plugins passes
/// `validate_plugin` at its own position.
pub proof fn law_plan_valid_iff_plugins_valid(ps: Seq<PluginMetadata>)
    requires
        ps.len() <= usize::MAX + 1,
    ensures
        plan_problem(ps) is None <==> forall|i: int| 0 <= i < ps.len() ==> (#[trigger] plugin_problem(ps[i], i as usize)) is None,
    decreases ps.len(),
{
    if ps.len() > 0 {
        let q = ps.drop_last();
        law_plan_valid_iff_plugins_valid(q);
        if plan_problem(ps) is None {
            assert forall|i: int| 0 <= i < ps.len() implies (#[trigger] plugin_problem(ps[i], i as usize)) is None by {
                if i < q.len() {
                    assert(q[i] == ps[i]);
                    assert(plugin_problem(q[i], i as usize) is None);
                }
            }
        } else {
            if forall|i: int| 0 <= i < ps.len() ==> (#[trigger] plugin_problem(ps[i], i as usize)) is None {
                assert forall|i: int| 0 <= i < q.len() implies (#[trigger] plugin_problem(q[i], i as usize)) is None by {
                    assert(q[i] == ps[i]);
                    assert(plugin_problem(ps[i], i as usize) is None);
                }
                assert(plugin_problem(ps[ps.len() - 1], (ps.len() - 1) as usize) is None);
            }
        }
    }
}

/// Which plan file the engine loads, and whether it may write plugin binaries.
pub enum PlanLoadSource {
    /// An updated plan (downloaded, or found at the override path).
    Remote(String),
    /// The local plan, used when no update was found.
    LocalFallback(String),
}

impl PlanLoadSource {
    /// Plugin binaries are copied or downloaded only for an updated plan.
    pub fn allows_write(&self) -> (r: bool)
        ensures
            r == (self is Remote),
    {
        match self {
            PlanLoadSource::Remote(_) => true,
            PlanLoadSource::LocalFallback(_) => false,
        }
    }

    /// The path of the plan file.
    pub fn path(&self) -> (r: &String)
        ensures
            r == match self {
                PlanLoadSource::Remote(p) => p,
                PlanLoadSource::LocalFallback(p) => p,
            },
    {
        match self {
            PlanLoadSource::Remote(p) => p,
            PlanLoadSource::LocalFallback(p) => p,
        }
    }
}

/// What to try in order to find an updated plan.
pub enum UpdateStep {
    /// Download the plan from this URL.
    Download(String),
    /// Use the plan at this path if it exists.
    CheckOverride(String),
    /// The update source is not supported; the message says which it was.
    Unsupported(String),
}

/// The location of the updated plan: `{root without trailing '/'}/{product}/{version}/execution_plan.toml`.
pub open spec fn remote_plan_path(root: Seq<char>, product: Seq<char>, version: Seq<char>) -> Seq<char> {
    trim_end_char(root, '/') + "/"@ + product + "/"@ + version + "/execution_plan.toml"@
}

/// Finds updated execution plans.
pub struct ExecutionPlanUpdater;

impl ExecutionPlanUpdater {
    /// The location of the updated plan for a product family and plan version.
    pub fn build_remote_path(root: &str, product: &str, version: &str) -> (r: String)
        ensures
            r@ == remote_plan_path(root@, product@, version@),
    {
        let mut fixed = trim_end_char_str(root, '/');
        push_str(&mut fixed, "/");
        push_str(&mut fixed, product);
        push_str(&mut fixed, "/");
        push_str(&mut fixed, version);
        push_str(&mut fixed, "/execution_plan.toml");
        fixed
    }

    /// What to try, given the base plan's `general` section.
    pub fn plan_update_step(general: &PlanGeneral) -> (r: UpdateStep)
        ensures
            ({
                let remote = remote_plan_path(
                    general.update_path_root@,
                    general.product_family@,
                    general.execution_plan_version@,
                );
                let from = general.update_from@;
                &&& from == "s3"@ ==> (r matches UpdateStep::Download(u) && u@ == remote)
                &&& (from == "local"@ || from == "unc"@) ==> (r matches UpdateStep::CheckOverride(p) && p@ == remote)
                &&& (from != "s3"@ && from != "local"@ && from != "unc"@) ==> (r matches UpdateStep::Unsupported(m)
                    && m@ == "Unsupported update_from value: "@ + from)
            }),
    {
        proof {
            reveal_strlit("s3");
            reveal_strlit("local");
            reveal_strlit("unc");
            assert("s3"@.len() == 2 && "unc"@.len() == 3 && "local"@.len() == 5);
        }
        let remote = Self::build_remote_path(
            general.update_path_root.as_str(),
            general.product_family.as_str(),
            general.execution_plan_version.as_str(),
        );
        let from = general.update_from.as_str();
        if str_eq(from, "s3") {
            UpdateStep::Download(remote)
        } else if str_eq(from, "local") || str_eq(from, "unc") {
            UpdateStep::CheckOverride(remote)
        } else {
            UpdateStep::Unsupported(concat2("Unsupported update_from value: ", from))
        }
    }

    /// The plan to load after trying `step`: `downloaded` is where a download was
    /// stored (if it succeeded), `override_exists` whether the override path exists.
    pub fn settle_plan_source(
        plan_path: &str,
        step: UpdateStep,
        downloaded: Option<String>,
        override_exists: bool,
    ) -> (r: Result<PlanLoadSource, String>)
        ensures
            match step {
                UpdateStep::Download(_) => match downloaded {
                    Some(p) => r matches Ok(PlanLoadSource::Remote(q)) && q == p,
                    None => r matches Ok(PlanLoadSource::LocalFallback(q)) && q@ == plan_path@,
                },
                UpdateStep::CheckOverride(remote) => if override_exists {
                    r matches Ok(PlanLoadSource::Remote(q)) && q == remote
                } else {
                    r matches Ok(PlanLoadSource::LocalFallback(q)) && q@ == plan_path@
                },
                UpdateStep::Unsupported(m) => r matches Err(e) && e == m,
            },
    {
        match step {
            UpdateStep::Download(_) => match downloaded {
                Some(p) => Ok(PlanLoadSource::Remote(p)),
                None => Ok(PlanLoadSource::LocalFallback(owned(plan_path))),
            },
            UpdateStep::CheckOverride(remote) => if override_exists {
                Ok(PlanLoadSource::Remote(remote))
            } else {
                Ok(PlanLoadSource::LocalFallback(owned(plan_path)))
            },
            UpdateStep::Unsupported(m) => Err(m),
        }
    }
}

/// An event the engine subscribes to, and the route it switches to when it fires.
pub struct RouteSubscription {
    pub event: String,
    pub route: String,
}

/// A subscription, as text.
pub open spec fn subscription_view(s: RouteSubscription) -> (Seq<char>, Seq<char>) {
    (s.event@, s.route@)
}

/// The subscriptions for the handoff events: the first leads to provisioning, the
/// second to the finish page; further events are not used.
pub open spec fn handoff_subscriptions(events: Seq<Seq<char>>) -> Seq<(Seq<char>, Seq<char>)> {
    let first = if events.len() > 0 {
        seq![(events[0], "/provision/web"@)]
    } else {
        Seq::empty()
    };
    let second = if events.len() > 1 {
        seq![(events[1], "/finish/web"@)]
    } else {
        Seq::empty()
    };
    first + second
}

/// The subscription of one plan plugin: after its `run_after_event_name` (or the
/// text `None` when it has none) the UI switches to `{plugin_route}/web`.
pub open spec fn plugin_subscription(p: PluginMetadata) -> (Seq<char>, Seq<char>) {
    (
        match p.run_after_event_name {
            Some(e) => e@,
            None => "None"@,
        },
        p.plugin_route@ + "/web"@,
    )
}

/// The subscriptions a loaded plan sets up, in order.
pub open spec fn plan_subscriptions_spec(plan: PluginExecutionPlan) -> Seq<(Seq<char>, Seq<char>)> {
    handoff_subscriptions(plan.handoffs.handoff_events@.map_values(|e: String| e@))
        + plan.plugins@.map_values(|p: PluginMetadata| plugin_subscription(p))
}

/// The event subscriptions a loaded plan sets up, in the order they are made.
pub fn plan_subscriptions(plan: &PluginExecutionPlan) -> (r: Vec<RouteSubscription>)
    ensures
        r@.map_values(|s: RouteSubscription| subscription_view(s)) == plan_subscriptions_spec(*plan),
{
    let mut out: Vec<RouteSubscription> = Vec::new();
    let events = &plan.handoffs.handoff_events;
    let ghost ev = events@.map_values(|e: String| e@);
    if events.len() > 0 {
        out.push(RouteSubscription { event: events[0].clone(), route: owned("/provision/web") });
    }
    if events.len() > 1 {
        out.push(RouteSubscription { event: events[1].clone(), route: owned("/finish/web") });
    }
    let ghost base = handoff_subscriptions(ev);
    assert(out@.map_values(|s: RouteSubscription| subscription_view(s)) =~= base);
    let n = plan.plugins.len();
    let mut i: usize = 0;
    while i < n
        invariant
            n == plan.plugins@.len(),
            i <= n,
            out@.map_values(|s: RouteSubscription| subscription_view(s)) == base + plan.plugins@.take(
                i as int,
            ).map_values(|p: PluginMetadata| plugin_subscription(p)),
        decreases n - i,
    {
        let p = &plan.plugins[i];
        let event = match &p.run_after_event_name {
            Some(e) => e.clone(),
            None => owned("None"),
        };
        let route = concat2(p.plugin_route.as_str(), "/web");
        let sub = RouteSubscription { event, route };
        assert(subscription_view(sub) == plugin_subscription(plan.plugins@[i as int]));
        let ghost prev = out@;
        out.push(sub);
        assert(out@.map_values(|s: RouteSubscription| subscription_view(s)) =~= prev.map_values(
            |s: RouteSubscription| subscription_view(s),
        ).push(subscription_view(sub)));
        assert(plan.plugins@.take(i + 1).map_values(|p: PluginMetadata| plugin_subscription(p))
            =~= plan.plugins@.take(i as int).map_values(|p: PluginMetadata| plugin_subscription(p)).push(
            plugin_subscription(plan.plugins@[i as int])));
        assert(out@.map_values(|s: RouteSubscription| subscription_view(s)) =~= base + plan.plugins@.take(
            i + 1,
        ).map_values(|p: PluginMetadata| plugin_subscription(p)));
        i += 1;
    }
    assert(plan.plugins@.take(n as int) =~= plan.plugins@);
    out
}

/// The text a plugin entry holds for a required field.
pub open spec fn field_value(p: PluginMetadata, f: PluginField) -> Seq<char> {
    match f {
        PluginField::FullName => p.name@,
        PluginField::PluginRoute => p.plugin_route@,
        PluginField::Version => p.version@,
        PluginField::PluginLocationPath => p.plugin_base_path@,
        PluginField::TeamName => p.team_name@,
        PluginField::EngineeringContactEmail => p.engineering_contact_email@,
        PluginField::OperationContactEmail => p.operation_contact_email@,
    }
}

/// Where a field's check stands in the order an entry is checked in: full name,
/// route, version, then the location type (position 3), then location path,
/// team, engineering contact and operations contact.
pub open spec fn check_position(f: PluginField) -> int {
    match f {
        PluginField::FullName => 0,
        PluginField::PluginRoute => 1,
        PluginField::Version => 2,
        PluginField::PluginLocationPath => 4,
        PluginField::TeamName => 5,
        PluginField::EngineeringContactEmail => 6,
        PluginField::OperationContactEmail => 7,
    }
}

/// The entry names one of the two location types plans may use.
pub open spec fn location_type_ok(p: PluginMetadata) -> bool {
    p.plugin_location_type@ == "local"@ || p.plugin_location_type@ == "s3"@
}

/// What checking one plugin entry decides: the entry is accepted exactly when
/// every required field (full name, route, version, location path, team,
/// engineering and operations contacts) holds more than whitespace and its
/// location type is `local` or `s3`. A refusal names the entry's index and a
/// real problem: a blank field, or a bad location type. It is the first problem
/// in check order: every field checked before a reported blank field is filled
/// in (and the location type, when it comes earlier, is valid), and every field
/// checked before a bad location type is filled in.
pub proof fn law_plugin_entry_checks(p: PluginMetadata, index: usize)
    ensures
        plugin_problem(p, index) is None <==> {
            &&& !is_blank(p.name@)
            &&& !is_blank(p.plugin_route@)
            &&& !is_blank(p.version@)
            &&& location_type_ok(p)
            &&& !is_blank(p.plugin_base_path@)
            &&& !is_blank(p.team_name@)
            &&& !is_blank(p.engineering_contact_email@)
            &&& !is_blank(p.operation_contact_email@)
        },
        plugin_problem(p, index) matches Some(PlanError::MissingField { index: i, field }) ==> {
            &&& i == index
            &&& is_blank(field_value(p, field))
            &&& forall|g: PluginField|
                check_position(g) < check_position(field) ==> !is_blank(#[trigger] field_value(p, g))
            &&& check_position(field) > 3 ==> location_type_ok(p)
        },
        plugin_problem(p, index) matches Some(PlanError::InvalidLocationType { index: i }) ==> {
            &&& i == index
            &&& !location_type_ok(p)
            &&& forall|g: PluginField| check_position(g) < 3 ==> !is_blank(#[trigger] field_value(p, g))
        },
{
    match plugin_problem(p, index) {
        Some(PlanError::MissingField { index: i, field }) => {
            assert forall|g: PluginField| check_position(g) < check_position(field) implies !is_blank(
                #[trigger] field_value(p, g),
            ) by {
                match g {
                    PluginField::FullName => {},
                    PluginField::PluginRoute => {},
                    PluginField::Version => {},
                    PluginField::PluginLocationPath => {},
                    PluginField::TeamName => {},
                    PluginField::EngineeringContactEmail => {},
                    PluginField::OperationContactEmail => {},
                }
            }
        },
        Some(PlanError::InvalidLocationType { index: i }) => {
            assert forall|g: PluginField| check_position(g) < 3 implies !is_blank(#[trigger] field_value(p, g)) by {
                match g {
                    PluginField::FullName => {},
                    PluginField::PluginRoute => {},
                    PluginField::Version => {},
                    PluginField::PluginLocationPath => {},
                    PluginField::TeamName => {},
                    PluginField::EngineeringContactEmail => {},
                    PluginField::OperationContactEmail => {},
                }
            }
        },
        None => {},
    }
}

/// A plan is accepted exactly when every one of its plugin entries has all its
/// required fields filled in and a location type of `local` or `s3`.
pub proof fn law_plan_accepted_iff_entries_complete(ps: Seq<PluginMetadata>)
    requires
        ps.len() <= usize::MAX + 1,
    ensures
        plan_problem(ps) is None <==> forall|i: int|
            0 <= i < ps.len() ==> {
                &&& !is_blank(#[trigger] ps[i].name@)
                &&& !is_blank(ps[i].plugin_route@)
                &&& !is_blank(ps[i].version@)
                &&& location_type_ok(ps[i])
                &&& !is_blank(ps[i].plugin_base_path@)
                &&& !is_blank(ps[i].team_name@)
                &&& !is_blank(ps[i].engineering_contact_email@)
                &&& !is_blank(ps[i].operation_contact_email@)
            },
{
    law_plan_valid_iff_plugins_valid(ps);
    assert forall|i: int| 0 <= i < ps.len() implies (plugin_problem(ps[i], i as usize) is None <==> {
        &&& !is_blank(ps[i].name@)
        &&& !is_blank(ps[i].plugin_route@)
        &&& !is_blank(ps[i].version@)
        &&& location_type_ok(ps[i])
        &&& !is_blank(ps[i].plugin_base_path@)
        &&& !is_blank(ps[i].team_name@)
        &&& !is_blank(ps[i].engineering_contact_email@)
        &&& !is_blank(ps[i].operation_contact_email@)
    }) by {
        law_plugin_entry_checks(ps[i], i as usize);
    }
}

} // verus!
