//! Utilities for common shell tasks: the application catalogue used by
//! launchers, and the handler traits a shell implements to hear from
//! services.
use vstd::prelude::*;

pub mod application;

verus! {

/// What an [`AppData`] holds, as plain sequences.
pub struct AppDataView {
    pub desktop_file_id: Seq<char>,
    pub is_primary: bool,
    pub image_path: Option<Seq<char>>,
    pub name: Seq<char>,
    pub exec_comm: Option<Seq<char>>,
}

/// Stores the relevant data for an application entry: either the main entry
/// of a desktop file or one of its actions.
#[derive(Debug)]
pub struct AppData {
    /// Unique ID of an application desktop file.
    pub desktop_file_id: String,
    /// Whether the entry is the main entry or an action of an application.
    pub is_primary: bool,
    /// Image path of the application, if it could be found.
    pub image_path: Option<String>,
    /// Name of the application.
    pub name: String,
    /// Command to run the application.
    pub exec_comm: Option<String>,
}

impl View for AppData {
    type V = AppDataView;

    open spec fn view(&self) -> AppDataView {
        AppDataView {
            desktop_file_id: self.desktop_file_id@,
            is_primary: self.is_primary,
            image_path: self.image_path.deep_view(),
            name: self.name@,
            exec_comm: self.exec_comm.deep_view(),
        }
    }
}

/// Copies an optional string.
pub fn clone_opt_string(s: &Option<String>) -> (r: Option<String>)
    ensures
        r.deep_view() == s.deep_view(),
{
    match s {
        Some(v) => Some(v.clone()),
        None => None,
    }
}

impl Clone for AppData {
    fn clone(&self) -> (r: Self)
        ensures
            r@ == self@,
    {
        AppData {
            desktop_file_id: self.desktop_file_id.clone(),
            is_primary: self.is_primary,
            image_path: clone_opt_string(&self.image_path),
            name: self.name.clone(),
            exec_comm: clone_opt_string(&self.exec_comm),
        }
    }
}

} // verus!

verus! {

/// The views of a list of entries.
pub open spec fn apps_view(apps: Seq<AppData>) -> Seq<AppDataView> {
    apps.map_values(|a: AppData| a@)
}

/// The main entries among `apps`, in order.
pub open spec fn primaries(apps: Seq<AppDataView>) -> Seq<AppDataView>
    decreases apps.len(),
{
    if apps.len() == 0 {
        Seq::empty()
    } else if apps.last().is_primary {
        primaries(apps.drop_last()).push(apps.last())
    } else {
        primaries(apps.drop_last())
    }
}

/// `str::to_lowercase`: the text with every character mapped to its Unicode
/// lowercase form.
pub uninterp spec fn lowercase(s: Seq<char>) -> Seq<char>;

/// `std`'s `str::to_lowercase`; the result is named by [`lowercase`].
#[verifier::external_body]
fn to_lowercase(s: &str) -> (r: String)
    ensures
        r@ == lowercase(s@),
{
    s.to_lowercase()
}

/// The names `rust_fuzzy_search::fuzzy_search_best_n` returns for a query
/// and a list of candidates: the `n` candidates of highest trigram score.
pub uninterp spec fn fuzzy_best(query: Seq<char>, list: Seq<Seq<char>>, n: nat) -> Seq<Seq<char>>;

/// `rust_fuzzy_search::fuzzy_search_best_n`, keeping the names and dropping
/// the scores. The names are named by [`fuzzy_best`]; the source shows that
/// the function scores every candidate, sorts the pairs by score and keeps
/// the first `n`, so that there are as many names as the smaller of `n` and
/// the number of candidates, each of them a candidate. Which candidates come
/// first is left to the name.
#[verifier::external_body]
fn fuzzy_best_names(query: &str, list: &Vec<String>, n: usize) -> (names: Vec<String>)
    ensures
        names.deep_view() == fuzzy_best(query@, list.deep_view(), n as nat),
        names@.len() == if (n as int) < list@.len() {
            n as int
        } else {
            list@.len() as int
        },
        forall|i: int|
            0 <= i < names@.len() ==> list.deep_view().contains(#[trigger] names.deep_view()[i]),
{
    let candidates: Vec<&str> = list.iter().map(|s| s.as_str()).collect();
    rust_fuzzy_search::fuzzy_search_best_n(query, &candidates, n)
        .into_iter()
        .map(|(word, _score)| word.to_string())
        .collect()
}

/// The position of the first entry whose lowercased name is `name`, or the
/// length of the list when there is none.
pub open spec fn first_named(apps: Seq<AppDataView>, name: Seq<char>) -> int
    decreases apps.len(),
{
    if apps.len() == 0 {
        0
    } else if lowercase(apps[0].name) == name {
        0
    } else {
        1 + first_named(apps.drop_first(), name)
    }
}

/// The lowercased names of the entries.
pub open spec fn lower_names(apps: Seq<AppDataView>) -> Seq<Seq<char>> {
    apps.map_values(|a: AppDataView| lowercase(a.name))
}

/// The result of a query over the given candidates: for each of the best
/// names among the candidates' lowercased names, the first entry of `apps`
/// with that lowercased name.
pub open spec fn query_over(
    apps: Seq<AppDataView>,
    candidates: Seq<AppDataView>,
    query: Seq<char>,
    n: nat,
) -> Seq<AppDataView> {
    fuzzy_best(lowercase(query), lower_names(candidates), n).map_values(
        |b: Seq<char>| apps[first_named(apps, b)],
    )
}

proof fn lemma_first_named_found(apps: Seq<AppDataView>, name: Seq<char>, j: int)
    requires
        0 <= j < apps.len(),
        lowercase(apps[j].name) == name,
    ensures
        0 <= first_named(apps, name) <= j,
        lowercase(apps[first_named(apps, name)].name) == name,
        forall|k: int| 0 <= k < first_named(apps, name) ==> lowercase(#[trigger] apps[k].name) != name,
    decreases j,
{
    if lowercase(apps[0].name) != name {
        let t = apps.drop_first();
        assert(t[j - 1] == apps[j]);
        lemma_first_named_found(t, name, j - 1);
        assert forall|k: int| 0 <= k < first_named(apps, name) implies lowercase(
            #[trigger] apps[k].name,
        ) != name by {
            if k > 0 {
                assert(apps[k] == t[k - 1]);
            }
        }
    }
}

proof fn lemma_first_named_exact(apps: Seq<AppDataView>, name: Seq<char>, j: int)
    requires
        0 <= j < apps.len(),
        lowercase(apps[j].name) == name,
        forall|k: int| 0 <= k < j ==> lowercase(#[trigger] apps[k].name) != name,
    ensures
        first_named(apps, name) == j,
{
    lemma_first_named_found(apps, name, j);
    let f = first_named(apps, name);
    if f < j {
        assert(lowercase(apps[f].name) != name);
    }
}

/// The entries of a list of references, as plain values.
pub open spec fn refs_view(apps: Seq<&AppData>) -> Seq<AppDataView> {
    apps.map_values(|a: &AppData| a@)
}

/// Every main entry is marked as one.
proof fn lemma_primaries_are_primary(apps: Seq<AppDataView>)
    ensures
        forall|k: int| 0 <= k < primaries(apps).len() ==> (#[trigger] primaries(apps)[k]).is_primary,
    decreases apps.len(),
{
    if apps.len() > 0 {
        lemma_primaries_are_primary(apps.drop_last());
    }
}

/// A query depends on the query text only through its lowercase form: two
/// queries that differ only in case give the same entries.
pub proof fn lemma_query_ignores_case(
    apps: Seq<AppDataView>,
    candidates: Seq<AppDataView>,
    q1: Seq<char>,
    q2: Seq<char>,
    n: nat,
)
    requires
        lowercase(q1) == lowercase(q2),
    ensures
        query_over(apps, candidates, q1, n) == query_over(apps, candidates, q2, n),
{
}

/// The first entry of `apps` whose lowercased name is `name`; there is one.
fn find_named<'a>(apps: &Vec<&'a AppData>, name: &String) -> (r: &'a AppData)
    requires
        lower_names(refs_view(apps@)).contains(name@),
    ensures
        0 <= first_named(refs_view(apps@), name@) < apps@.len(),
        r@ == refs_view(apps@)[first_named(refs_view(apps@), name@)],
{
    let ghost all = refs_view(apps@);
    let ghost j = choose|j: int| 0 <= j < lower_names(all).len() && lower_names(all)[j] == name@;
    proof {
        lemma_first_named_found(all, name@, j);
    }
    let mut i: usize = 0;
    while i < apps.len()
        invariant
            i <= apps@.len(),
            all == refs_view(apps@),
            0 <= j < all.len(),
            lowercase(all[j].name) == name@,
            forall|k: int| 0 <= k < i ==> lowercase(#[trigger] all[k].name) != name@,
        decreases apps@.len() - i,
    {
        let lower = to_lowercase(apps[i].name.as_str());
        assert(all[i as int] == apps@[i as int]@);
        if lower == *name {
            proof {
                lemma_first_named_exact(all, name@, i as int);
            }
            return apps[i];
        }
        i = i + 1;
    }
    assert(lowercase(all[j].name) != name@);
    apps[0]
}

/// Maps the best names to the first entries of `apps` that bear them.
fn entries_named<'a>(apps: &Vec<&'a AppData>, best: &Vec<String>) -> (r: Vec<&'a AppData>)
    requires
        forall|i: int|
            0 <= i < best@.len() ==> lower_names(refs_view(apps@)).contains(
                #[trigger] best.deep_view()[i],
            ),
    ensures
        refs_view(r@) == best.deep_view().map_values(
            |b: Seq<char>| refs_view(apps@)[first_named(refs_view(apps@), b)],
        ),
        forall|i: int| 0 <= i < r@.len() ==> refs_view(apps@).contains(#[trigger] refs_view(r@)[i]),
        r@.len() == best@.len(),
{
    let ghost all = refs_view(apps@);
    let ghost bv = best.deep_view();
    let mut r: Vec<&AppData> = Vec::new();
    let mut i: usize = 0;
    while i < best.len()
        invariant
            i <= best@.len(),
            all == refs_view(apps@),
            bv == best.deep_view(),
            forall|k: int| 0 <= k < best@.len() ==> lower_names(all).contains(#[trigger] bv[k]),
            refs_view(r@) == bv.take(i as int).map_values(|b: Seq<char>| all[first_named(all, b)]),
            forall|k: int| 0 <= k < r@.len() ==> all.contains(#[trigger] refs_view(r@)[k]),
        decreases best@.len() - i,
    {
        assert(bv[i as int] == best[i as int]@);
        let found = find_named(apps, &best[i]);
        let ghost before = r@;
        r.push(found);
        proof {
            let f = first_named(all, bv[i as int]);
            assert(refs_view(r@) =~= refs_view(before).push(all[f]));
            assert(bv.take(i + 1) =~= bv.take(i as int).push(bv[i as int]));
            assert(refs_view(r@) =~= bv.take(i + 1).map_values(|b: Seq<char>| all[first_named(all, b)]));
            assert forall|k: int| 0 <= k < r@.len() implies all.contains(#[trigger] refs_view(r@)[k]) by {
                if k == r@.len() - 1 {
                    assert(all[f] == refs_view(r@)[k]);
                } else {
                    assert(refs_view(r@)[k] == refs_view(before)[k]);
                }
            }
        }
        i = i + 1;
    }
    assert(bv.take(best@.len() as int) =~= bv);
    r
}

/// The lowercased names of the entries of `apps`.
fn lowered_names(apps: &Vec<&AppData>) -> (names: Vec<String>)
    ensures
        names.deep_view() == lower_names(refs_view(apps@)),
        names@.len() == apps@.len(),
{
    let ghost all = refs_view(apps@);
    let mut names: Vec<String> = Vec::new();
    let mut i: usize = 0;
    while i < apps.len()
        invariant
            i <= apps@.len(),
            all == refs_view(apps@),
            names.deep_view() == lower_names(all.take(i as int)),
        decreases apps@.len() - i,
    {
        let lower = to_lowercase(apps[i].name.as_str());
        let ghost before = names.deep_view();
        names.push(lower);
        assert(all[i as int] == apps@[i as int]@);
        assert(all.take(i + 1) =~= all.take(i as int).push(all[i as int]));
        assert(names.deep_view() =~= before.push(lowercase(all[i as int].name)));
        assert(names.deep_view() =~= lower_names(all.take(i + 1)));
        i = i + 1;
    }
    assert(all.take(apps@.len() as int) =~= all);
    names
}

/// A list of application entries, as gathered from the desktop files of the
/// system, with queries for launchers.
#[derive(Debug)]
pub struct AppSelector {
    /// The entries, in the order they were read.
    pub app_list: Vec<AppData>,
}

impl AppSelector {
    /// The entries as plain values.
    pub open spec fn entries(&self) -> Seq<AppDataView> {
        apps_view(self.app_list@)
    }

    /// Returns the main entries of the applications, in order.
    pub fn get_primary(&self) -> (r: Vec<&AppData>)
        ensures
            refs_view(r@) == primaries(self.entries()),
    {
        let ghost all = self.entries();
        let mut r: Vec<&AppData> = Vec::new();
        let mut i: usize = 0;
        assert(r@.map_values(|a: &AppData| a@) =~= primaries(all.take(0)));
        while i < self.app_list.len()
            invariant
                i <= self.app_list@.len(),
                all == self.entries(),
                r@.map_values(|a: &AppData| a@) == primaries(all.take(i as int)),
            decreases self.app_list@.len() - i,
        {
            assert(all.take(i + 1).drop_last() =~= all.take(i as int));
            assert(all.take(i + 1).last() == all[i as int]);
            let ghost before = r@;
            if self.app_list[i].is_primary {
                r.push(&self.app_list[i]);
                assert(r@.map_values(|a: &AppData| a@) =~= before.map_values(|a: &AppData| a@).push(
                    all[i as int],
                ));
            }
            i = i + 1;
        }
        assert(all.take(self.app_list@.len() as int) =~= all);
        r
    }

    /// Returns every entry, main entries and actions alike.
    pub fn get_all(&self) -> (r: Vec<&AppData>)
        ensures
            refs_view(r@) == self.entries(),
    {
        let ghost all = self.entries();
        let mut r: Vec<&AppData> = Vec::new();
        let mut i: usize = 0;
        while i < self.app_list.len()
            invariant
                i <= self.app_list@.len(),
                all == self.entries(),
                r@.map_values(|a: &AppData| a@) == all.take(i as int),
            decreases self.app_list@.len() - i,
        {
            let ghost before = r@;
            r.push(&self.app_list[i]);
            assert(all[i as int] == self.app_list@[i as int]@);
            assert(r@.map_values(|a: &AppData| a@) =~= before.map_values(|a: &AppData| a@).push(
                all[i as int],
            ));
            assert(all.take(i + 1) =~= all.take(i as int).push(all[i as int]));
            i = i + 1;
        }
        assert(all.take(self.app_list@.len() as int) =~= all);
        r
    }

    /// Returns the most relevant main entries for a query; `size` bounds the
    /// number of entries returned.
    pub fn query_primary(&self, query_val: &str, size: usize) -> (r: Vec<&AppData>)
        ensures
            refs_view(r@) == query_over(
                primaries(self.entries()),
                primaries(self.entries()),
                query_val@,
                size as nat,
            ),
            forall|i: int| 0 <= i < r@.len() ==> (#[trigger] r@[i]).is_primary,
            forall|i: int|
                0 <= i < r@.len() ==> primaries(self.entries()).contains(#[trigger] refs_view(r@)[i]),
            r@.len() == if (size as int) < primaries(self.entries()).len() {
                size as int
            } else {
                primaries(self.entries()).len() as int
            },
    {
        let query = to_lowercase(query_val);
        let primary = self.get_primary();
        let names = lowered_names(&primary);
        let best = fuzzy_best_names(query.as_str(), &names, size);
        let r = entries_named(&primary, &best);
        proof {
            let pv = primaries(self.entries());
            lemma_primaries_are_primary(self.entries());
            assert forall|i: int| 0 <= i < r@.len() implies (#[trigger] r@[i]).is_primary by {
                assert(pv.contains(refs_view(r@)[i]));
                let m = choose|m: int| 0 <= m < pv.len() && pv[m] == refs_view(r@)[i];
                assert(pv[m].is_primary);
            }
        }
        r
    }

    /// Returns the most relevant entries (main entries and actions) for a
    /// query; `size` bounds the number of entries returned.
    pub fn query_all(&self, query_val: &str, size: usize) -> (r: Vec<&AppData>)
        ensures
            refs_view(r@) == query_over(self.entries(), self.entries(), query_val@, size as nat),
            forall|i: int| 0 <= i < r@.len() ==> self.entries().contains(#[trigger] refs_view(r@)[i]),
            r@.len() == if (size as int) < self.entries().len() {
                size as int
            } else {
                self.entries().len() as int
            },
    {
        let query = to_lowercase(query_val);
        let all = self.get_all();
        let names = lowered_names(&all);
        let best = fuzzy_best_names(query.as_str(), &names, size);
        entries_named(&all, &best)
    }
}

} // verus!

verus! {

/// Implemented by a shell that shows notifications.
pub trait NotificationHandler: Send + Sync {}

/// Implemented by a shell that wants to hear of applications added to the
/// system.
pub trait AppHandler: Send + Sync {
    /// Called with the entry of a newly installed application.
    fn new_app_added(&mut self, app_data: AppData);
}

/// Implemented by a shell that controls media players.
pub trait MprisHandler: Send + Sync {}

/// Implemented by a shell that controls audio.
pub trait PipeWireHandler: Send + Sync {}

/// Audio control; it has no operations yet.
pub struct AudioManager;

} // verus!
