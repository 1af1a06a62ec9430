//! Namespace management on the repository screen: the list of namespaces
//! found in the repository, kept in name order, and the decisions around
//! creating, selecting, renaming and deleting one.

use vstd::prelude::*;

use crate::chars::{chars_of, decimal, owned, push_str};
use crate::content::{announced, shows};
use crate::paths::parts_of;
use crate::screens::repository::{
    display_path, path_text, ConfirmState, NamespaceAction, NamespaceSummary, OwnershipInfo, RepoMode, RepoScreen,
};
use crate::shell::{sources_text, App, Config};
use crate::status::{StatusKind, StatusMessage};
use crate::task::{live_request, load_data, LoadTaskKind};

verus! {

/// `a` comes before `b` in code-point order, which is the order of their
/// UTF-8 bytes: at the first differing character, or `a` being a proper
/// prefix of `b`.
pub open spec fn name_lt(a: Seq<char>, b: Seq<char>) -> bool
    decreases a.len(),
{
    if a.len() == 0 {
        b.len() > 0
    } else if b.len() == 0 {
        false
    } else if a[0] != b[0] {
        (a[0] as int) < (b[0] as int)
    } else {
        name_lt(a.drop_first(), b.drop_first())
    }
}

/// No name comes before itself.
pub proof fn lemma_name_lt_irreflexive(a: Seq<char>)
    ensures
        !name_lt(a, a),
    decreases a.len(),
{
    if a.len() > 0 {
        lemma_name_lt_irreflexive(a.drop_first());
    }
}

/// Of two names, at most one comes first.
pub proof fn lemma_name_lt_asymmetric(a: Seq<char>, b: Seq<char>)
    requires
        name_lt(a, b),
    ensures
        !name_lt(b, a),
    decreases a.len(),
{
    if a.len() > 0 && b.len() > 0 && a[0] == b[0] {
        lemma_name_lt_asymmetric(a.drop_first(), b.drop_first());
    }
}

/// The order is transitive.
pub proof fn lemma_name_lt_transitive(a: Seq<char>, b: Seq<char>, c: Seq<char>)
    requires
        name_lt(a, b),
        name_lt(b, c),
    ensures
        name_lt(a, c),
    decreases a.len(),
{
    if a.len() > 0 && b.len() > 0 && c.len() > 0 && a[0] == b[0] && b[0] == c[0] {
        lemma_name_lt_transitive(a.drop_first(), b.drop_first(), c.drop_first());
    }
}

/// Of two different names, one comes first.
pub proof fn lemma_name_lt_total(a: Seq<char>, b: Seq<char>)
    requires
        a != b,
    ensures
        name_lt(a, b) || name_lt(b, a),
    decreases a.len(),
{
    if a.len() == 0 && b.len() == 0 {
        assert(a =~= b);
    }
    if a.len() > 0 && b.len() > 0 && a[0] == b[0] {
        if a.drop_first() == b.drop_first() {
            assert(a =~= seq![a[0]] + a.drop_first());
            assert(b =~= seq![b[0]] + b.drop_first());
        }
        lemma_name_lt_total(a.drop_first(), b.drop_first());
    }
}

/// Whether `a` comes before `b`.
pub fn name_less(a: &str, b: &str) -> (r: bool)
    ensures
        r == name_lt(a@, b@),
{
    let x = chars_of(a);
    let y = chars_of(b);
    let mut i: usize = 0;
    assert(x@.skip(0) =~= x@);
    assert(y@.skip(0) =~= y@);
    while i < x.len() && i < y.len() && x[i] == y[i]
        invariant
            x@ == a@,
            y@ == b@,
            i <= x.len(),
            i <= y.len(),
            name_lt(a@, b@) == name_lt(x@.skip(i as int), y@.skip(i as int)),
        decreases x.len() - i,
    {
        assert(x@.skip(i as int).drop_first() =~= x@.skip(i + 1));
        assert(y@.skip(i as int).drop_first() =~= y@.skip(i + 1));
        i = i + 1;
    }
    if i == x.len() {
        i < y.len()
    } else if i == y.len() {
        false
    } else {
        x[i] < y[i]
    }
}

/// The names in order, equal names allowed.
pub open spec fn names_sorted(ns: Seq<NamespaceSummary>) -> bool {
    forall|i: int, j: int| 0 <= i < j < ns.len() ==> !name_lt(#[trigger] ns[j].name@, #[trigger] ns[i].name@)
}

/// What a listed namespace is: name, ownership, whether it is active.
pub open spec fn entry(n: NamespaceSummary) -> (Seq<char>, OwnershipInfo, bool) {
    (n.name@, n.ownership, n.active)
}

pub open spec fn entries(ns: Seq<NamespaceSummary>) -> Seq<(Seq<char>, OwnershipInfo, bool)> {
    ns.map_values(|n: NamespaceSummary| entry(n))
}

/// The namespaces found, each marked active when it carries the active
/// name.
pub open spec fn found_entries(found: Seq<NamespaceSummary>, active: Seq<char>) -> Seq<(Seq<char>, OwnershipInfo, bool)> {
    found.map_values(|n: NamespaceSummary| (n.name@, n.ownership, n.name@ == active))
}

pub open spec fn names_one(found: Seq<NamespaceSummary>, name: Seq<char>) -> bool {
    exists|i: int| 0 <= i < found.len() && #[trigger] found[i].name@ == name
}

/// What the list holds: the namespaces found, and the active one as a new
/// namespace when it is a valid name that was not found.
pub open spec fn listed_entries(found: Seq<NamespaceSummary>, active: Seq<char>, active_valid: bool) -> Seq<
    (Seq<char>, OwnershipInfo, bool),
> {
    found_entries(found, active) + if active_valid && !names_one(found, active) {
        seq![(active, OwnershipInfo::New, true)]
    } else {
        Seq::empty()
    }
}

/// Position of the first active namespace, or 0.
pub open spec fn first_active(ns: Seq<NamespaceSummary>) -> usize {
    if exists|i: int| 0 <= i < ns.len() && #[trigger] ns[i].active {
        (choose|i: int| 0 <= i < ns.len() && #[trigger] ns[i].active && forall|k: int|
            0 <= k < i ==> !(#[trigger] ns[k].active)) as usize
    } else {
        0
    }
}

/// Inserting a name at the first place where it comes before the name
/// there keeps the names in order.
proof fn lemma_insert_sorted(ns: Seq<NamespaceSummary>, p: int, x: NamespaceSummary)
    requires
        names_sorted(ns),
        0 <= p <= ns.len(),
        forall|k: int| 0 <= k < p ==> !name_lt(x.name@, #[trigger] ns[k].name@),
        p < ns.len() ==> name_lt(x.name@, ns[p].name@),
    ensures
        names_sorted(ns.insert(p, x)),
{
    let t = ns.insert(p, x);
    assert forall|k: int| p <= k < ns.len() implies name_lt(x.name@, #[trigger] ns[k].name@) by {
        if k > p {
            if ns[k].name@ != ns[p].name@ {
                lemma_name_lt_total(ns[k].name@, ns[p].name@);
                lemma_name_lt_transitive(x.name@, ns[p].name@, ns[k].name@);
            }
        }
    }
    assert forall|i: int, j: int| 0 <= i < j < t.len() implies !name_lt(#[trigger] t[j].name@, #[trigger] t[i].name@) by {
        if i == p {
            assert(t[j] == ns[j - 1]);
            lemma_name_lt_asymmetric(x.name@, ns[j - 1].name@);
        } else if j == p {
            assert(t[i] == ns[i]);
        } else {
            let a = if i < p { i } else { i - 1 };
            let b = if j < p { j } else { j - 1 };
            assert(t[i] == ns[a]);
            assert(t[j] == ns[b]);
        }
    }
}

/// Insert `x` into the name-ordered list after every name it does not come
/// before.
fn insert_by_name(list: &mut Vec<NamespaceSummary>, x: NamespaceSummary)
    requires
        names_sorted(old(list)@),
    ensures
        names_sorted(final(list)@),
        entries(final(list)@).to_multiset() == entries(old(list)@).to_multiset().insert(entry(x)),
{
    let ghost before = list@;
    let mut p: usize = 0;
    while p < list.len() && !name_less(x.name.as_str(), list[p].name.as_str())
        invariant
            list@ == before,
            p <= list.len(),
            forall|k: int| 0 <= k < p ==> !name_lt(x.name@, #[trigger] list@[k].name@),
        decreases list.len() - p,
    {
        p = p + 1;
    }
    proof {
        lemma_insert_sorted(before, p as int, x);
    }
    list.insert(p, x);
    proof {
        assert(entries(list@) =~= entries(before).insert(p as int, entry(x)));
        vstd::seq_lib::to_multiset_insert(entries(before), p as int, entry(x));
    }
}

/// Whether some namespace in the list carries `name`.
fn has_name(list: &Vec<NamespaceSummary>, name: &str) -> (r: bool)
    ensures
        r == names_one(list@, name@),
{
    let mut i: usize = 0;
    while i < list.len()
        invariant
            i <= list.len(),
            forall|k: int| 0 <= k < i ==> (#[trigger] list@[k]).name@ != name@,
        decreases list.len() - i,
    {
        if crate::chars::same_str(list[i].name.as_str(), name) {
            return true;
        }
        i = i + 1;
    }
    false
}

/// Position of the first active namespace, or 0.
fn active_position(list: &Vec<NamespaceSummary>) -> (r: usize)
    ensures
        r == first_active(list@),
{
    let mut i: usize = 0;
    while i < list.len()
        invariant
            i <= list.len(),
            forall|k: int| 0 <= k < i ==> !(#[trigger] list@[k]).active,
        decreases list.len() - i,
    {
        if list[i].active {
            let ghost c = choose|j: int| 0 <= j < list@.len() && #[trigger] list@[j].active && forall|k: int|
                0 <= k < j ==> !(#[trigger] list@[k]).active;
            assert(list@[i as int].active);
            proof {
                if c < i {
                } else if c > i {
                }
            }
            return i;
        }
        i = i + 1;
    }
    0
}

impl RepoScreen {
    /// Show the namespaces found in the repository: each is marked active
    /// when it carries the `active` name; the active name joins the list as
    /// a new namespace when it is a valid name (`active_valid`) that was not
    /// found; the list is kept in name order and the cursor rests on the
    /// active namespace.
    pub fn show_namespaces(&mut self, found: Vec<NamespaceSummary>, active: &str, active_valid: bool)
        ensures
            names_sorted(final(self).namespaces@),
            entries(final(self).namespaces@).to_multiset() == listed_entries(found@, active@, active_valid).to_multiset(),
            final(self).namespace_selected == first_active(final(self).namespaces@),
            final(self).mode == old(self).mode,
            final(self).input == old(self).input,
            final(self).validation == old(self).validation,
            final(self).namespace_input == old(self).namespace_input,
            final(self).namespace_action == old(self).namespace_action,
    {
        let ghost fs = found@;
        assert(fs.len() == found.len());
        let missing = active_valid && !has_name(&found, active);
        let mut rest = found;
        let mut list: Vec<NamespaceSummary> = Vec::new();
        let mut k: usize = 0;
        assert(entries(list@) =~= found_entries(fs.take(0), active@));
        assert(rest@ =~= fs.skip(0));
        while rest.len() > 0
            invariant
                k <= fs.len(),
                fs.len() <= usize::MAX,
                rest@ == fs.skip(k as int),
                names_sorted(list@),
                entries(list@).to_multiset() == found_entries(fs.take(k as int), active@).to_multiset(),
            decreases rest.len(),
        {
            assert(k < fs.len()) by {
                assert(fs.skip(k as int).len() > 0);
            }
            let mut item = rest.remove(0);
            assert(item == fs[k as int]);
            let is_active = crate::chars::same_str(item.name.as_str(), active);
            item.active = is_active;
            let ghost e = entry(item);
            insert_by_name(&mut list, item);
            proof {
                assert(found_entries(fs.take(k + 1), active@) =~= found_entries(fs.take(k as int), active@).push(e));
                vstd::seq_lib::to_multiset_build(found_entries(fs.take(k as int), active@), e);
                assert(rest@ =~= fs.skip(k + 1));
            }
            k = k + 1;
        }
        assert(k == fs.len()) by {
            assert(fs.skip(k as int).len() == 0);
        }
        assert(fs.take(k as int) =~= fs);
        let ghost found_part = found_entries(fs, active@);
        if missing {
            let ghost e = (active@, OwnershipInfo::New, true);
            insert_by_name(&mut list, NamespaceSummary { name: crate::chars::owned(active), ownership: OwnershipInfo::New, active: true });
            proof {
                vstd::seq_lib::to_multiset_build(found_part, e);
                assert(found_part.push(e) =~= listed_entries(fs, active@, active_valid));
            }
        } else {
            assert(found_part =~= listed_entries(fs, active@, active_valid));
        }
        self.namespace_selected = active_position(&list);
        self.namespaces = list;
    }
}

/// What to do about the namespace entered on the repository screen.
#[derive(Debug)]
pub enum NamespacePlan {
    /// No namespace operation is pending.
    Idle,
    /// The operation cannot run; the status says why.
    Refused,
    /// Run `action` for the `requested` namespace on this configuration,
    /// then call `finish_namespace_operation` with the outcome, and
    /// `show_namespaces` with what the repository then holds.
    Run { action: NamespaceAction, requested: String, config: Config },
}

impl App {
    /// Decide what the pending namespace operation works on: the loaded
    /// configuration, or else a new one for the validated repository.
    pub fn prepare_namespace_operation(&mut self, paths_ready: bool) -> (plan: NamespacePlan)
        ensures
            final(self).config == old(self).config,
            !paths_ready ==> plan is Refused && shows(
                *final(self),
                StatusKind::Error,
                "Cannot manage namespace: paths not resolved."@,
            ),
            paths_ready && old(self).config is None && load_data(old(self).repo_screen.validation) is None ==> plan
                is Refused && announced(
                old(self).status_message,
                *final(self),
                StatusKind::Warning,
                "Select a repository first, then choose its namespace."@,
            ) && final(self).repo_screen.mode == RepoMode::Browser,
            paths_ready && (old(self).config is Some || load_data(old(self).repo_screen.validation) is Some)
                && old(self).repo_screen.namespace_action == NamespaceAction::Idle ==> plan is Idle && *final(self)
                == *old(self),
            plan matches NamespacePlan::Run { action, requested, config } ==> {
                &&& paths_ready
                &&& *final(self) == *old(self)
                &&& action == old(self).repo_screen.namespace_action
                &&& action != NamespaceAction::Idle
                &&& requested@ == old(self).repo_screen.namespace_input@
                &&& match old(self).config {
                    Some(c) => config.repository@ == c.repository@ && config.namespace@ == c.namespace@
                        && sources_text(config.sources@) == sources_text(c.sources@),
                    None => config.repository@ == display_path(
                        parts_of(load_data(old(self).repo_screen.validation)->0.path),
                    ) && config.namespace@ == requested@ && config.sources.len() == 0,
                }
            },
    {
        let action = self.repo_screen.namespace_action;
        let requested = self.repo_screen.namespace_input.clone();
        if !paths_ready {
            self.publish_status(StatusMessage::error("Cannot manage namespace: paths not resolved."));
            return NamespacePlan::Refused;
        }
        let config = match &self.config {
            Some(c) => {
                let sources = crate::selection::copy_sources(&c.sources);
                assert(sources_text(sources@) =~= sources_text(c.sources@)) by {
                    assert forall|i: int| 0 <= i < sources.len() implies crate::shell::source_text(
                        #[trigger] sources@[i],
                    ) == crate::shell::source_text(c.sources@[i]) by {
                        assert(crate::selection::strings_of(sources@[i].ignore@) =~= crate::selection::strings_of(
                            c.sources@[i].ignore@,
                        ));
                    }
                }
                Config { repository: c.repository.clone(), namespace: c.namespace.clone(), sources }
            },
            None => match self.repo_screen.validation.data() {
                Some(info) => Config { repository: path_text(&info.path), namespace: requested.clone(), sources: Vec::new() },
                None => {
                    self.publish_status(StatusMessage::warning("Select a repository first, then choose its namespace."));
                    self.repo_screen.mode = RepoMode::Browser;
                    return NamespacePlan::Refused;
                },
            },
        };
        if action == NamespaceAction::Idle {
            return NamespacePlan::Idle;
        }
        NamespacePlan::Run { action, requested, config }
    }

    /// Take the outcome of a namespace operation. On success the returned
    /// configuration is loaded, the source and ignore positions start over,
    /// the repository screen goes back to its browser with the namespace
    /// entered, and the validation, previews and automation status are
    /// dropped.
    pub fn finish_namespace_operation(&mut self, requested: &str, outcome: Result<Config, String>)
        ensures
            match outcome {
                Ok(c) => {
                    &&& final(self).config == Some(c)
                    &&& final(self).sources_screen.selection is None
                    &&& final(self).sources_screen.selected == 0
                    &&& final(self).ignore_screen.source_idx == 0
                    &&& final(self).ignore_screen.pattern_idx == 0
                    &&& final(self).repo_screen.namespace_input@ == requested@
                    &&& final(self).repo_screen.namespace_action == NamespaceAction::Idle
                    &&& final(self).repo_screen.mode == RepoMode::Browser
                    &&& final(self).repo_screen.validation is Stale
                    &&& final(self).repo_screen.confirm_state == ConfirmState::Idle
                    &&& live_request(final(self).tasks@, LoadTaskKind::RepositoryValidation) is None
                    &&& live_request(final(self).tasks@, LoadTaskKind::AutomationInspection) is None
                    &&& final(self).preview_screen.load_state is Stale
                    &&& final(self).ignore_screen.preview_state is Stale
                    &&& final(self).automation_screen.status_state is Stale
                    &&& announced(
                        old(self).status_message,
                        *final(self),
                        StatusKind::Success,
                        "Active namespace: "@ + requested@ + " ("@ + decimal(c.sources.len() as nat)
                            + " sources active)"@,
                    )
                },
                Err(e) => final(self).config == old(self).config && shows(
                    *final(self),
                    StatusKind::Error,
                    "Namespace operation failed: "@ + e@,
                ),
            },
    {
        match outcome {
            Ok(config) => {
                let count = config.sources.len();
                self.config = Some(config);
                self.sources_screen.selection = None;
                self.sources_screen.selected = 0;
                self.ignore_screen.source_idx = 0;
                self.ignore_screen.pattern_idx = 0;
                self.repo_screen.set_namespace(requested);
                self.repo_screen.namespace_action = NamespaceAction::Idle;
                self.repo_screen.mode = RepoMode::Browser;
                self.invalidate_repository_validation();
                self.invalidate_dependent_previews();
                self.tasks.invalidate_load(LoadTaskKind::AutomationInspection);
                self.automation_screen.status_state.invalidate();
                let mut text = owned("Active namespace: ");
                push_str(&mut text, requested);
                let tail = crate::shell::count_text(" (", count, " sources active)");
                push_str(&mut text, tail.as_str());
                assert(text@ =~= "Active namespace: "@ + requested@ + " ("@ + decimal(count as nat) + " sources active)"@);
                self.publish_status(StatusMessage::success(text.as_str()));
            },
            Err(e) => {
                let mut text = owned("Namespace operation failed: ");
                push_str(&mut text, e.as_str());
                self.publish_status(StatusMessage::error(text.as_str()));
            },
        }
    }
}

} // verus!
