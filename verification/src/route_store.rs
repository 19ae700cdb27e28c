//! The per-user record of application routes.
//!
//! Windows' private audio-policy getter can lag behind process creation, so the
//! stable application identity recorded here is the source of truth; the
//! native getter only imports preferences created elsewhere. The store keeps
//! one output per application; following the system default is the absence
//! of an entry. Reading and writing the configuration file is the shell's
//! work: it hands this module what it read and saves what `configuration`
//! returns.

use vstd::prelude::*;

use crate::text::{decimal, decimal_text, text_eq};

verus! {

/// The configuration format this store reads and writes.
pub const CONFIG_VERSION: u32 = 1;

/// The contents of a configuration file: its format version and its routes,
/// application identity first.
#[derive(Clone, Debug, PartialEq, Eq)]
pub struct Configuration {
    pub version: u32,
    pub routes: Vec<(String, String)>,
}

/// What reading one configuration file gave.
#[derive(Clone, Debug, PartialEq, Eq)]
pub enum ConfigRead {
    /// The file held a configuration.
    Loaded(Configuration),
    /// The file does not exist.
    NotFound,
    /// The file could not be read or parsed; the text describes why.
    Failed(String),
}

/// Application routes, one output per application identity.
pub struct RouteStore {
    routes: Vec<(String, String)>,
}

/// The characters of each entry of a list of routes.
pub open spec fn entries_of(v: Seq<(String, String)>) -> Seq<(Seq<char>, Seq<char>)> {
    Seq::new(v.len(), |i: int| (v[i].0@, v[i].1@))
}

/// The routes of a list in which a later entry replaces an earlier one.
pub open spec fn route_map(s: Seq<(Seq<char>, Seq<char>)>) -> Map<Seq<char>, Seq<char>>
    decreases s.len(),
{
    if s.len() == 0 {
        Map::empty()
    } else {
        route_map(s.drop_last()).insert(s.last().0, s.last().1)
    }
}

/// Whether no application occurs twice in a list of routes.
pub open spec fn keys_unique(s: Seq<(Seq<char>, Seq<char>)>) -> bool {
    forall|i: int, j: int| 0 <= i < j < s.len() ==> s[i].0 != s[j].0
}

proof fn lemma_route_map_lookup(s: Seq<(Seq<char>, Seq<char>)>, k: Seq<char>)
    requires
        keys_unique(s),
    ensures
        route_map(s).contains_key(k) <==> exists|i: int| 0 <= i < s.len() && s[i].0 == k,
        forall|i: int| 0 <= i < s.len() && s[i].0 == k ==> route_map(s)[k] == s[i].1,
    decreases s.len(),
{
    if s.len() > 0 {
        let t = s.drop_last();
        lemma_route_map_lookup(t, k);
        if s.last().0 == k {
            assert(s[s.len() - 1].0 == k);
        } else {
            assert forall|i: int| 0 <= i < s.len() && s[i].0 == k implies 0 <= i < t.len() && t[i].0
                == k by {}
            assert forall|i: int| 0 <= i < t.len() && t[i].0 == k implies 0 <= i < s.len() && s[i].0
                == k by {}
        }
    }
}

proof fn lemma_route_map_update(s: Seq<(Seq<char>, Seq<char>)>, i: int, v: Seq<char>)
    requires
        keys_unique(s),
        0 <= i < s.len(),
    ensures
        route_map(s.update(i, (s[i].0, v))) == route_map(s).insert(s[i].0, v),
    decreases s.len(),
{
    let k = s[i].0;
    let u = s.update(i, (k, v));
    let t = s.drop_last();
    if i == s.len() - 1 {
        assert(u.drop_last() =~= t);
        assert(route_map(u) =~= route_map(s).insert(k, v));
    } else {
        lemma_route_map_update(t, i, v);
        assert(u.drop_last() =~= t.update(i, (k, v)));
        assert(s.last().0 != k);
        assert(route_map(u) =~= route_map(s).insert(k, v));
    }
}

proof fn lemma_route_map_remove(s: Seq<(Seq<char>, Seq<char>)>, i: int)
    requires
        keys_unique(s),
        0 <= i < s.len(),
    ensures
        route_map(s.remove(i)) == route_map(s).remove(s[i].0),
        keys_unique(s.remove(i)),
    decreases s.len(),
{
    let k = s[i].0;
    let t = s.drop_last();
    if i == s.len() - 1 {
        assert(s.remove(i) =~= t);
        lemma_route_map_lookup(t, k);
        assert(!route_map(t).contains_key(k));
        assert(route_map(s).remove(k) =~= route_map(t));
    } else {
        lemma_route_map_remove(t, i);
        assert(s.remove(i).drop_last() =~= t.remove(i));
        assert(s.remove(i).last() == s.last());
        assert(s.last().0 != k);
        assert(route_map(s.remove(i)) =~= route_map(s).remove(k));
    }
}

/// What opening a store from a configuration gives: the store of its routes,
/// or the message refusing a version other than this format's.
pub open spec fn opens_as(c: Configuration, r: Result<RouteStore, String>) -> bool {
    if c.version != 0 && c.version != CONFIG_VERSION {
        r matches Err(m) && m@ == "Adufa configuration version "@ + decimal(c.version as nat)
            + " is not supported."@
    } else {
        r matches Ok(store) && store.wf() && store.routes() == route_map(entries_of(c.routes@))
    }
}

/// Saving a store and opening what was saved gives back the same routes: the
/// saved configuration is of this format, so opening it never fails.
pub proof fn law_saved_routes_reopen(store: RouteStore, saved: Configuration, reopened: Result<RouteStore, String>)
    requires
        store.wf(),
        saved.version == CONFIG_VERSION,
        route_map(entries_of(saved.routes@)) == store.routes(),
        opens_as(saved, reopened),
    ensures
        reopened matches Ok(s) && s.routes() == store.routes(),
{
}

/// A recorded output is read back for its application, following the system
/// default reads back as no entry, and no other application's route changes.
pub proof fn law_recorded_route_reads_back(
    before: RouteStore,
    after: RouteStore,
    application: Seq<char>,
    output: Option<Seq<char>>,
    other: Seq<char>,
)
    requires
        output matches Some(o) ==> after.routes() == before.routes().insert(application, o),
        output is None ==> after.routes() == before.routes().remove(application),
        other != application,
    ensures
        output matches Some(o) ==> after.routes().contains_key(application) && after.routes()[application] == o,
        output is None ==> !after.routes().contains_key(application),
        after.routes().contains_key(other) == before.routes().contains_key(other),
        after.routes().contains_key(other) ==> after.routes()[other] == before.routes()[other],
{
}

impl RouteStore {
    /// The recorded routes, from application identity to output identity.
    pub closed spec fn routes(&self) -> Map<Seq<char>, Seq<char>> {
        route_map(entries_of(self.routes@))
    }

    /// The store's invariant: no application occurs twice.
    pub closed spec fn wf(&self) -> bool {
        keys_unique(entries_of(self.routes@))
    }

    /// A store without routes.
    pub fn new() -> (store: Self)
        ensures
            store.wf(),
            store.routes() == Map::<Seq<char>, Seq<char>>::empty(),
    {
        let store = RouteStore { routes: Vec::new() };
        assert(entries_of(store.routes@) =~= Seq::<(Seq<char>, Seq<char>)>::empty());
        store
    }

    fn position(&self, application_id: &str) -> (r: Option<usize>)
        requires
            self.wf(),
        ensures
            r matches Some(i) ==> i < self.routes@.len() && self.routes@[i as int].0@
                == application_id@,
            r is None ==> forall|i: int|
                0 <= i < self.routes@.len() ==> self.routes@[i].0@ != application_id@,
    {
        let mut i: usize = 0;
        while i < self.routes.len()
            invariant
                i <= self.routes@.len(),
                forall|j: int| 0 <= j < i ==> self.routes@[j].0@ != application_id@,
            decreases self.routes@.len() - i,
        {
            if text_eq(self.routes[i].0.as_str(), application_id) {
                return Some(i);
            }
            i = i + 1;
        }
        None
    }

    /// The output recorded for an application, if any.
    pub fn output_for(&self, application_id: &str) -> (r: Option<&str>)
        requires
            self.wf(),
        ensures
            r matches Some(o) ==> self.routes().contains_key(application_id@) && self.routes()[application_id@]
                == o@,
            r is None ==> !self.routes().contains_key(application_id@),
    {
        let ghost e = entries_of(self.routes@);
        proof {
            lemma_route_map_lookup(e, application_id@);
        }
        match self.position(application_id) {
            Some(i) => {
                assert(e[i as int].0 == application_id@);
                Some(self.routes[i].1.as_str())
            },
            None => {
                assert forall|j: int| 0 <= j < e.len() implies e[j].0 != application_id@ by {
                    assert(e[j].0 == self.routes@[j].0@);
                }
                None
            },
        }
    }

    /// Records a successful routing request: an output, or `None` for
    /// following the system default, which removes the application's entry.
    pub fn record(&mut self, application_id: &str, output_id: Option<&str>)
        requires
            old(self).wf(),
        ensures
            final(self).wf(),
            output_id matches Some(o) ==> final(self).routes() == old(self).routes().insert(
                application_id@,
                o@,
            ),
            output_id is None ==> final(self).routes() == old(self).routes().remove(application_id@),
    {
        let ghost e = entries_of(self.routes@);
        proof {
            lemma_route_map_lookup(e, application_id@);
        }
        let found = self.position(application_id);
        match output_id {
            Some(o) => {
                let entry = (application_id.to_owned(), o.to_owned());
                match found {
                    Some(i) => {
                        self.routes.set(i, entry);
                        proof {
                            let u = e.update(i as int, (e[i as int].0, o@));
                            assert(entries_of(self.routes@) =~= u);
                            assert forall|a: int, b: int| 0 <= a < b < u.len() implies u[a].0 != u[b].0 by {
                                assert(u[a].0 == e[a].0 && u[b].0 == e[b].0);
                            }
                            lemma_route_map_update(e, i as int, o@);
                        }
                    },
                    None => {
                        self.routes.push(entry);
                        proof {
                            let u = entries_of(self.routes@);
                            assert(u =~= e.push((application_id@, o@)));
                            assert(u.drop_last() =~= e);
                            assert forall|a: int, b: int| 0 <= a < b < u.len() implies u[a].0 != u[b].0 by {
                                if b == u.len() - 1 {
                                    assert(e[a].0 == self.routes@[a].0@);
                                }
                            }
                        }
                    },
                }
            },
            None => {
                match found {
                    Some(i) => {
                        self.routes.remove(i);
                        proof {
                            assert(entries_of(self.routes@) =~= e.remove(i as int));
                            lemma_route_map_remove(e, i as int);
                        }
                    },
                    None => {
                        assert forall|j: int| 0 <= j < e.len() implies e[j].0 != application_id@ by {
                            assert(e[j].0 == self.routes@[j].0@);
                        }
                        assert(old(self).routes().remove(application_id@) =~= old(self).routes());
                    },
                }
            },
        }
    }

    /// The configuration to save: the current format version and every route.
    pub fn configuration(&self) -> (c: Configuration)
        requires
            self.wf(),
        ensures
            c.version == CONFIG_VERSION,
            route_map(entries_of(c.routes@)) == self.routes(),
            keys_unique(entries_of(c.routes@)),
    {
        let mut routes: Vec<(String, String)> = Vec::new();
        let mut i: usize = 0;
        while i < self.routes.len()
            invariant
                i <= self.routes@.len(),
                routes@.len() == i,
                entries_of(routes@) == entries_of(self.routes@.subrange(0, i as int)),
            decreases self.routes@.len() - i,
        {
            let ghost prev = routes@;
            let key = self.routes[i].0.clone();
            let value = self.routes[i].1.clone();
            routes.push((key, value));
            i = i + 1;
            proof {
                let sub = self.routes@.subrange(0, i as int);
                assert forall|j: int| 0 <= j < i implies #[trigger] entries_of(routes@)[j] == entries_of(
                    sub,
                )[j] by {
                    if j < i - 1 {
                        assert(entries_of(prev)[j] == entries_of(self.routes@.subrange(0, i - 1))[j]);
                    }
                }
                assert(entries_of(routes@) =~= entries_of(sub));
            }
        }
        assert(self.routes@.subrange(0, self.routes@.len() as int) =~= self.routes@);
        Configuration { version: CONFIG_VERSION, routes }
    }

    /// A store holding a configuration's routes, or the message refusing a
    /// version other than this format's (a version of 0 is a file written
    /// before versions were recorded). Of two entries for one application,
    /// the later one stands.
    pub fn from_configuration(configuration: Configuration) -> (r: Result<RouteStore, String>)
        ensures
            opens_as(configuration, r),
    {
        if configuration.version != 0 && configuration.version != CONFIG_VERSION {
            let s = String::from_str("Adufa configuration version ");
            let mut s = s.concat(decimal_text(configuration.version as u64).as_str());
            s.append(" is not supported.");
            return Err(s);
        }
        let mut store = RouteStore::new();
        let mut i: usize = 0;
        while i < configuration.routes.len()
            invariant
                store.wf(),
                i <= configuration.routes@.len(),
                store.routes() == route_map(entries_of(configuration.routes@.subrange(0, i as int))),
            decreases configuration.routes@.len() - i,
        {
            let ghost before = entries_of(configuration.routes@.subrange(0, i as int));
            store.record(configuration.routes[i].0.as_str(), Some(configuration.routes[i].1.as_str()));
            i = i + 1;
            proof {
                let after = entries_of(configuration.routes@.subrange(0, i as int));
                assert(after.drop_last() =~= before);
            }
        }
        assert(configuration.routes@.subrange(0, configuration.routes@.len() as int)
            =~= configuration.routes@);
        Ok(store)
    }

    /// Opens the store from what reading the configuration file and, when that
    /// failed, its previous copy gave (`backup` is only consulted then). Two
    /// missing files give an empty store; otherwise a failed primary read
    /// without a valid copy is reported with the primary read's description.
    pub fn load(primary: ConfigRead, backup: ConfigRead) -> (r: Result<RouteStore, String>)
        ensures
            primary matches ConfigRead::Loaded(c) ==> opens_as(c, r),
            !(primary is Loaded) ==> (backup matches ConfigRead::Loaded(c) ==> opens_as(c, r)),
            primary is NotFound && !(backup is Loaded) ==> (r matches Ok(store) && store.wf()
                && store.routes() == Map::<Seq<char>, Seq<char>>::empty()),
            primary matches ConfigRead::Failed(why) ==> (!(backup is Loaded) ==> (r matches Err(m)
                && m@ == "Adufa could not read a valid configuration: "@ + why@)),
    {
        match primary {
            ConfigRead::Loaded(c) => RouteStore::from_configuration(c),
            _ => match backup {
                ConfigRead::Loaded(c) => RouteStore::from_configuration(c),
                _ => match primary {
                    ConfigRead::Failed(why) => {
                        let s = String::from_str("Adufa could not read a valid configuration: ");
                        Err(s.concat(why.as_str()))
                    },
                    _ => Ok(RouteStore::new()),
                },
            },
        }
    }
}

} // verus!
