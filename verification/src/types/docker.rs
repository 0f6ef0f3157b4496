//! Run specifications: what one engine `run` invocation is made of.

use vstd::prelude::*;

use crate::text::{
    comes_before, copy_list, copy_optional, lemma_text_order_asymmetric, lemma_text_order_total,
    lemma_text_order_transitive, same_text, text_before,
};

verus! {

/// One published port: a port of the host and the container port behind it.
#[derive(Debug, Clone, Copy, PartialEq, Eq)]
pub struct PortMapping {
    pub host: i32,
    pub container: i32,
}

/// A named volume and the path inside the container where it is mounted.
#[derive(Debug)]
pub struct VolumeMount {
    pub name: String,
    pub path: String,
}

pub struct VolumeMountView {
    pub name: Seq<char>,
    pub path: Seq<char>,
}

impl View for VolumeMount {
    type V = VolumeMountView;

    open spec fn view(&self) -> VolumeMountView {
        VolumeMountView { name: self.name@, path: self.path@ }
    }
}

impl DeepView for VolumeMount {
    type V = VolumeMountView;

    open spec fn deep_view(&self) -> VolumeMountView {
        self@
    }
}

impl Clone for VolumeMount {
    fn clone(&self) -> (r: Self)
        ensures
            r@ == self@,
    {
        VolumeMount { name: self.name.clone(), path: self.path.clone() }
    }
}

/// `entries` holds `key` at position `at`.
pub open spec fn key_at(entries: Seq<(Seq<char>, Seq<char>)>, key: Seq<char>, at: int) -> bool {
    0 <= at < entries.len() && entries[at].0 == key
}

/// Some entry of `entries` has the key `key`.
pub open spec fn has_key(entries: Seq<(Seq<char>, Seq<char>)>, key: Seq<char>) -> bool {
    exists|at: int| key_at(entries, key, at)
}

/// No key occurs in two entries.
pub open spec fn keys_distinct(entries: Seq<(Seq<char>, Seq<char>)>) -> bool {
    forall|i: int, j: int|
        0 <= i < entries.len() && 0 <= j < entries.len() && #[trigger] entries[i].0
            == #[trigger] entries[j].0 ==> i == j
}

/// A position of `key` in `entries`; the only one where the keys are distinct.
pub open spec fn key_position(entries: Seq<(Seq<char>, Seq<char>)>, key: Seq<char>) -> int {
    choose|at: int| key_at(entries, key, at)
}

/// The value that `entries` gives to `key`, if any.
pub open spec fn value_of(entries: Seq<(Seq<char>, Seq<char>)>, key: Seq<char>) -> Option<
    Seq<char>,
> {
    if has_key(entries, key) {
        Some(entries[key_position(entries, key)].1)
    } else {
        None
    }
}

/// `entries` after `key` was given `value`: an entry with that key keeps its
/// place and takes the value, a new key goes to the end.
pub open spec fn with_entry(
    entries: Seq<(Seq<char>, Seq<char>)>,
    key: Seq<char>,
    value: Seq<char>,
) -> Seq<(Seq<char>, Seq<char>)> {
    if has_key(entries, key) {
        entries.update(key_position(entries, key), (key, value))
    } else {
        entries.push((key, value))
    }
}

/// The keys stand in the order of the dictionary, each before the next.
pub open spec fn keys_ascending(entries: Seq<(Seq<char>, Seq<char>)>) -> bool {
    forall|i: int, j: int|
        0 <= i < j < entries.len() ==> text_before(
            (#[trigger] entries[i]).0,
            (#[trigger] entries[j]).0,
        )
}

/// Keys in the order of the dictionary are distinct.
pub proof fn lemma_ascending_keys_are_distinct(entries: Seq<(Seq<char>, Seq<char>)>)
    requires
        keys_ascending(entries),
    ensures
        keys_distinct(entries),
{
    assert forall|i: int, j: int|
        0 <= i < entries.len() && 0 <= j < entries.len() && #[trigger] entries[i].0
            == #[trigger] entries[j].0 implies i == j by {
        lemma_text_order_asymmetric(entries[i].0, entries[j].0);
        if i < j {
            assert(text_before(entries[i].0, entries[j].0));
        }
        if j < i {
            assert(text_before(entries[j].0, entries[i].0));
        }
    }
}

/// The order of the dictionary leaves no choice: two lists of variables
/// that hold the same variables, each with its keys in that order, are one
/// list.
pub proof fn lemma_key_order_is_canonical(
    first: Seq<(Seq<char>, Seq<char>)>,
    second: Seq<(Seq<char>, Seq<char>)>,
)
    requires
        keys_ascending(first),
        keys_ascending(second),
        forall|pair: (Seq<char>, Seq<char>)| first.contains(pair) <==> second.contains(pair),
    ensures
        first == second,
    decreases first.len(),
{
    if first.len() == 0 {
        if second.len() > 0 {
            assert(second.contains(second[0]));
            assert(first.contains(second[0]));
        }
        assert(first =~= second);
    } else {
        let a = first.last();
        assert(first.contains(a));
        assert(second.contains(a));
        lemma_last_is_last(first, second);
        lemma_same_but_last(first, second);
        lemma_same_but_last(second, first);
        lemma_key_order_is_canonical(first.drop_last(), second.drop_last());
        assert(first =~= first.drop_last().push(first.last()));
        assert(second =~= second.drop_last().push(second.last()));
    }
}

/// Of two ascending lists with the same variables, the last variables are
/// the same.
proof fn lemma_last_is_last(
    first: Seq<(Seq<char>, Seq<char>)>,
    second: Seq<(Seq<char>, Seq<char>)>,
)
    requires
        first.len() > 0,
        keys_ascending(first),
        keys_ascending(second),
        forall|pair: (Seq<char>, Seq<char>)| first.contains(pair) <==> second.contains(pair),
    ensures
        second.len() > 0,
        first.last() == second.last(),
{
    let a = first.last();
    assert(first.contains(a));
    assert(second.contains(a));
    let j = choose|j: int| 0 <= j < second.len() && second[j] == a;
    if j < second.len() - 1 {
        let b = second.last();
        assert(second.contains(b));
        assert(first.contains(b));
        let i = choose|i: int| 0 <= i < first.len() && first[i] == b;
        assert(text_before(second[j].0, second[second.len() - 1].0));
        lemma_text_order_asymmetric(a.0, b.0);
        if i < first.len() - 1 {
            assert(text_before(first[i].0, first[first.len() - 1].0));
        }
    }
}

/// Of two ascending lists with the same variables and the same last
/// variable, what the first holds before its last the second holds before its
/// last.
proof fn lemma_same_but_last(
    first: Seq<(Seq<char>, Seq<char>)>,
    second: Seq<(Seq<char>, Seq<char>)>,
)
    requires
        first.len() > 0,
        second.len() > 0,
        first.last() == second.last(),
        keys_ascending(first),
        keys_ascending(second),
        forall|pair: (Seq<char>, Seq<char>)| first.contains(pair) <==> second.contains(pair),
    ensures
        keys_ascending(first.drop_last()),
        forall|pair: (Seq<char>, Seq<char>)|
            first.drop_last().contains(pair) ==> second.drop_last().contains(pair),
{
    assert forall|i: int, j: int| 0 <= i < j < first.drop_last().len() implies text_before(
        (#[trigger] first.drop_last()[i]).0,
        (#[trigger] first.drop_last()[j]).0,
    ) by {
        assert(first.drop_last()[i] == first[i]);
        assert(first.drop_last()[j] == first[j]);
    }
    assert forall|pair: (Seq<char>, Seq<char>)|
        first.drop_last().contains(pair) implies second.drop_last().contains(pair) by {
        let i = choose|i: int| 0 <= i < first.drop_last().len() && first.drop_last()[i] == pair;
        assert(first[i] == pair);
        assert(first.contains(pair));
        assert(second.contains(pair));
        let m = choose|m: int| 0 <= m < second.len() && second[m] == pair;
        if m == second.len() - 1 {
            assert(text_before(first[i].0, first[first.len() - 1].0));
            lemma_text_order_asymmetric(pair.0, pair.0);
        }
        assert(second.drop_last()[m] == pair);
    }
}

/// Environment variables of a run specification: each key once, in the order
/// in which the keys were first given.
#[derive(Debug)]
pub struct EnvVars {
    entries: Vec<(String, String)>,
}

impl View for EnvVars {
    type V = Seq<(Seq<char>, Seq<char>)>;

    closed spec fn view(&self) -> Seq<(Seq<char>, Seq<char>)> {
        self.entries.deep_view()
    }
}

impl DeepView for EnvVars {
    type V = Seq<(Seq<char>, Seq<char>)>;

    open spec fn deep_view(&self) -> Seq<(Seq<char>, Seq<char>)> {
        self@
    }
}

impl EnvVars {
    #[verifier::type_invariant]
    spec fn well_formed(self) -> bool {
        keys_distinct(self.entries.deep_view())
    }

    /// No variables.
    pub fn new() -> (r: Self)
        ensures
            r@ == Seq::<(Seq<char>, Seq<char>)>::empty(),
    {
        let r = EnvVars { entries: Vec::new() };
        assert(r.entries.deep_view() =~= Seq::<(Seq<char>, Seq<char>)>::empty());
        r
    }

    /// The number of variables.
    pub fn len(&self) -> (r: usize)
        ensures
            r == self@.len(),
    {
        self.entries.len()
    }

    /// Whether there is no variable.
    pub fn is_empty(&self) -> (r: bool)
        ensures
            r == (self@.len() == 0),
    {
        self.entries.len() == 0
    }

    /// The keys are distinct, for every value of this type.
    pub fn distinct(&self)
        ensures
            keys_distinct(self@),
    {
        proof {
            use_type_invariant(self);
        }
    }

    /// The position of `key`, if it is there.
    fn position(&self, key: &str) -> (r: Option<usize>)
        ensures
            match r {
                Some(at) => key_at(self@, key@, at as int) && at as int == key_position(
                    self@,
                    key@,
                ),
                None => !has_key(self@, key@),
            },
    {
        proof {
            use_type_invariant(self);
        }
        let mut at: usize = 0;
        while at < self.entries.len()
            invariant
                at <= self.entries.len(),
                keys_distinct(self@),
                forall|k: int| 0 <= k < at ==> !key_at(self@, key@, k),
            decreases self.entries.len() - at,
        {
            if same_text(self.entries[at].0.as_str(), key) {
                assert(key_at(self@, key@, at as int));
                proof {
                    let found = key_position(self@, key@);
                    assert(key_at(self@, key@, found));
                    assert(keys_distinct(self@));
                    assert(self@[found].0 == self@[at as int].0);
                }
                return Some(at);
            }
            at += 1;
        }
        None
    }

    /// The value of `key`, if it is there.
    pub fn get(&self, key: &str) -> (r: Option<&String>)
        ensures
            r.deep_view() == value_of(self@, key@),
    {
        match self.position(key) {
            Some(at) => Some(&self.entries[at].1),
            None => None,
        }
    }

    /// The key and the value at position `at`.
    pub fn entry(&self, at: usize) -> (r: (&String, &String))
        requires
            at < self@.len(),
        ensures
            r.0@ == self@[at as int].0,
            r.1@ == self@[at as int].1,
    {
        (&self.entries[at].0, &self.entries[at].1)
    }

    /// The same variables with their keys in the order of the dictionary.
    /// The result depends on which variables there are and not on the order
    /// in which they were given.
    pub fn in_key_order(&self) -> (r: Self)
        ensures
            keys_ascending(r@),
            forall|pair: (Seq<char>, Seq<char>)| r@.contains(pair) <==> self@.contains(pair),
    {
        proof {
            use_type_invariant(self);
        }
        let ghost given = self.entries.deep_view();
        let mut sorted: Vec<(String, String)> = Vec::new();
        let mut at: usize = 0;
        assert(sorted.deep_view() =~= Seq::<(Seq<char>, Seq<char>)>::empty());
        while at < self.entries.len()
            invariant
                at <= self.entries.len(),
                given == self.entries.deep_view(),
                keys_distinct(given),
                keys_ascending(sorted.deep_view()),
                forall|pair: (Seq<char>, Seq<char>)|
                    sorted.deep_view().contains(pair) <==> given.take(at as int).contains(pair),
            decreases self.entries.len() - at,
        {
            let ghost before = sorted.deep_view();
            let ghost key = given[at as int].0;
            let mut place: usize = 0;
            while place < sorted.len() && comes_before(
                sorted[place].0.as_str(),
                self.entries[at].0.as_str(),
            )
                invariant
                    at < self.entries.len(),
                    given == self.entries.deep_view(),
                    key == given[at as int].0,
                    before == sorted.deep_view(),
                    place <= sorted.len(),
                    forall|k: int| 0 <= k < place ==> text_before((#[trigger] before[k]).0, key),
                decreases sorted.len() - place,
            {
                place += 1;
            }
            proof {
                // What stands from `place` on comes after the new key.
                assert forall|k: int| place <= k < before.len() implies text_before(
                    key,
                    (#[trigger] before[k]).0,
                ) by {
                    assert(before.contains(before[place as int]));
                    let m = choose|m: int|
                        0 <= m < given.take(at as int).len() && given.take(at as int)[m]
                            == before[place as int];
                    assert(given[m].0 == before[place as int].0);
                    assert(given[m].0 != given[at as int].0);
                    lemma_text_order_total(key, before[place as int].0);
                    if k > place {
                        lemma_text_order_transitive(key, before[place as int].0, before[k].0);
                    }
                }
            }
            sorted.insert(place, (self.entries[at].0.clone(), self.entries[at].1.clone()));
            proof {
                let now = sorted.deep_view();
                let pair = given[at as int];
                assert(now =~= before.insert(place as int, pair));
                assert forall|i: int, j: int| 0 <= i < j < now.len() implies text_before(
                    (#[trigger] now[i]).0,
                    (#[trigger] now[j]).0,
                ) by {
                    if j < place {
                        assert(now[i] == before[i] && now[j] == before[j]);
                    } else if j == place {
                        assert(now[i] == before[i]);
                    } else if i < place {
                        assert(now[i] == before[i] && now[j] == before[j - 1]);
                    } else if i == place {
                        assert(now[j] == before[j - 1]);
                    } else {
                        assert(now[i] == before[i - 1] && now[j] == before[j - 1]);
                    }
                }
                let upto = given.take(at + 1);
                assert forall|p: (Seq<char>, Seq<char>)| now.contains(p) <==> upto.contains(
                    p,
                ) by {
                    if now.contains(p) {
                        let t = choose|t: int| 0 <= t < now.len() && now[t] == p;
                        if t == place {
                            assert(upto[at as int] == p);
                        } else {
                            let u = if t < place {
                                t
                            } else {
                                t - 1
                            };
                            assert(before[u] == p);
                            assert(before.contains(p));
                            let m = choose|m: int|
                                0 <= m < given.take(at as int).len() && given.take(at as int)[m]
                                    == p;
                            assert(upto[m] == p);
                        }
                    }
                    if upto.contains(p) {
                        let m = choose|m: int| 0 <= m < upto.len() && upto[m] == p;
                        if m == at {
                            assert(now[place as int] == p);
                        } else {
                            assert(given.take(at as int)[m] == p);
                            assert(given.take(at as int).contains(p));
                            assert(before.contains(p));
                            let u = choose|u: int| 0 <= u < before.len() && before[u] == p;
                            if u < place {
                                assert(now[u] == p);
                            } else {
                                assert(now[u + 1] == p);
                            }
                        }
                    }
                }
            }
            at += 1;
        }
        proof {
            assert(given.take(at as int) =~= given);
            lemma_ascending_keys_are_distinct(sorted.deep_view());
        }
        EnvVars { entries: sorted }
    }

    /// Gives `key` the value `value` and returns the value it had.
    pub fn insert(&mut self, key: String, value: String) -> (r: Option<String>)
        ensures
            final(self)@ == with_entry(old(self)@, key@, value@),
            r.deep_view() == value_of(old(self)@, key@),
    {
        proof {
            use_type_invariant(&*self);
        }
        let ghost before = self.entries.deep_view();
        let found = self.position(key.as_str());
        let mut entries: Vec<(String, String)> = Vec::new();
        assert(entries.deep_view() =~= Seq::<(Seq<char>, Seq<char>)>::empty());
        std::mem::swap(&mut self.entries, &mut entries);
        match found {
            Some(at) => {
                let mut rest = entries.split_off(at);
                let (_, previous) = rest.remove(0);
                entries.push((key, value));
                entries.append(&mut rest);
                assert(entries.deep_view() =~= before.update(at as int, (key@, value@)));
                self.entries = entries;
                Some(previous)
            },
            None => {
                entries.push((key, value));
                assert(entries.deep_view() =~= before.push((key@, value@)));
                assert(keys_distinct(entries.deep_view())) by {
                    assert forall|i: int, j: int|
                        0 <= i < entries.deep_view().len() && 0 <= j < entries.deep_view().len()
                            && #[trigger] entries.deep_view()[i].0
                            == #[trigger] entries.deep_view()[j].0 implies i == j by {
                        if i < before.len() && j == before.len() {
                            assert(key_at(before, key@, i));
                        }
                        if j < before.len() && i == before.len() {
                            assert(key_at(before, key@, j));
                        }
                    }
                }
                self.entries = entries;
                None
            },
        }
    }
}

impl Clone for EnvVars {
    fn clone(&self) -> (r: Self)
        ensures
            r@ == self@,
    {
        proof {
            use_type_invariant(self);
        }
        let mut entries: Vec<(String, String)> = Vec::new();
        let mut at: usize = 0;
        while at < self.entries.len()
            invariant
                at <= self.entries.len(),
                entries.deep_view() == self.entries.deep_view().take(at as int),
            decreases self.entries.len() - at,
        {
            let ghost shown = entries.deep_view();
            entries.push((self.entries[at].0.clone(), self.entries[at].1.clone()));
            assert(entries.deep_view() =~= shown.push(self.entries.deep_view()[at as int]));
            assert(self.entries.deep_view().take(at + 1) =~= self.entries.deep_view().take(
                at as int,
            ).push(self.entries.deep_view()[at as int]));
            at += 1;
        }
        assert(self.entries.deep_view().take(at as int) =~= self.entries.deep_view());
        EnvVars { entries }
    }
}

/// A copy of a list of port mappings.
pub fn copy_ports(v: &Vec<PortMapping>) -> (r: Vec<PortMapping>)
    ensures
        r@ == v@,
{
    let mut out: Vec<PortMapping> = Vec::new();
    let mut at: usize = 0;
    while at < v.len()
        invariant
            at <= v.len(),
            out@ == v@.take(at as int),
        decreases v.len() - at,
    {
        out.push(v[at]);
        assert(v@.take(at + 1) =~= v@.take(at as int).push(v@[at as int]));
        at += 1;
    }
    assert(v@.take(at as int) =~= v@);
    out
}

/// A copy of a list of volume mounts.
pub fn copy_volumes(v: &Vec<VolumeMount>) -> (r: Vec<VolumeMount>)
    ensures
        r.deep_view() == v.deep_view(),
{
    let mut out: Vec<VolumeMount> = Vec::new();
    let mut at: usize = 0;
    while at < v.len()
        invariant
            at <= v.len(),
            out.deep_view() == v.deep_view().take(at as int),
        decreases v.len() - at,
    {
        let ghost shown = out.deep_view();
        out.push(v[at].clone());
        assert(out.deep_view() =~= shown.push(v.deep_view()[at as int]));
        assert(v.deep_view().take(at + 1) =~= v.deep_view().take(at as int).push(
            v.deep_view()[at as int],
        ));
        at += 1;
    }
    assert(v.deep_view().take(at as int) =~= v.deep_view());
    out
}

/// A run specification: everything that one engine `run` invocation names
/// besides the container's name.
#[derive(Debug)]
pub struct DockerRunArgs {
    pub image: String,
    pub env_vars: EnvVars,
    pub ports: Vec<PortMapping>,
    pub volumes: Vec<VolumeMount>,
    pub command: Vec<String>,
}

pub struct DockerRunArgsView {
    pub image: Seq<char>,
    pub env_vars: Seq<(Seq<char>, Seq<char>)>,
    pub ports: Seq<PortMapping>,
    pub volumes: Seq<VolumeMountView>,
    pub command: Seq<Seq<char>>,
}

impl View for DockerRunArgs {
    type V = DockerRunArgsView;

    open spec fn view(&self) -> DockerRunArgsView {
        DockerRunArgsView {
            image: self.image@,
            env_vars: self.env_vars@,
            ports: self.ports@,
            volumes: self.volumes.deep_view(),
            command: self.command.deep_view(),
        }
    }
}

impl DeepView for DockerRunArgs {
    type V = DockerRunArgsView;

    open spec fn deep_view(&self) -> DockerRunArgsView {
        self@
    }
}

impl Clone for DockerRunArgs {
    fn clone(&self) -> (r: Self)
        ensures
            r@ == self@,
    {
        DockerRunArgs {
            image: self.image.clone(),
            env_vars: self.env_vars.clone(),
            ports: copy_ports(&self.ports),
            volumes: copy_volumes(&self.volumes),
            command: copy_list(&self.command),
        }
    }
}

/// What is kept of a container besides its run specification.
#[derive(Debug)]
pub struct ContainerMetadata {
    pub id: String,
    pub db_type: String,
    pub version: String,
    pub port: i32,
    pub username: Option<String>,
    pub password: String,
    pub database_name: Option<String>,
    pub persist_data: bool,
    pub enable_auth: bool,
    pub max_connections: Option<i32>,
}

pub struct ContainerMetadataView {
    pub id: Seq<char>,
    pub db_type: Seq<char>,
    pub version: Seq<char>,
    pub port: i32,
    pub username: Option<Seq<char>>,
    pub password: Seq<char>,
    pub database_name: Option<Seq<char>>,
    pub persist_data: bool,
    pub enable_auth: bool,
    pub max_connections: Option<i32>,
}

impl View for ContainerMetadata {
    type V = ContainerMetadataView;

    open spec fn view(&self) -> ContainerMetadataView {
        ContainerMetadataView {
            id: self.id@,
            db_type: self.db_type@,
            version: self.version@,
            port: self.port,
            username: self.username.deep_view(),
            password: self.password@,
            database_name: self.database_name.deep_view(),
            persist_data: self.persist_data,
            enable_auth: self.enable_auth,
            max_connections: self.max_connections,
        }
    }
}

impl DeepView for ContainerMetadata {
    type V = ContainerMetadataView;

    open spec fn deep_view(&self) -> ContainerMetadataView {
        self@
    }
}

impl Clone for ContainerMetadata {
    fn clone(&self) -> (r: Self)
        ensures
            r@ == self@,
    {
        ContainerMetadata {
            id: self.id.clone(),
            db_type: self.db_type.clone(),
            version: self.version.clone(),
            port: self.port,
            username: copy_optional(&self.username),
            password: self.password.clone(),
            database_name: copy_optional(&self.database_name),
            persist_data: self.persist_data,
            enable_auth: self.enable_auth,
            max_connections: self.max_connections,
        }
    }
}

/// A request to create or to update a container: its name, its run
/// specification and what is kept of it.
#[derive(Debug)]
pub struct DockerRunRequest {
    pub name: String,
    pub docker_args: DockerRunArgs,
    pub metadata: ContainerMetadata,
}

pub struct DockerRunRequestView {
    pub name: Seq<char>,
    pub docker_args: DockerRunArgsView,
    pub metadata: ContainerMetadataView,
}

impl View for DockerRunRequest {
    type V = DockerRunRequestView;

    open spec fn view(&self) -> DockerRunRequestView {
        DockerRunRequestView {
            name: self.name@,
            docker_args: self.docker_args@,
            metadata: self.metadata@,
        }
    }
}

impl DeepView for DockerRunRequest {
    type V = DockerRunRequestView;

    open spec fn deep_view(&self) -> DockerRunRequestView {
        self@
    }
}

impl Clone for DockerRunRequest {
    fn clone(&self) -> (r: Self)
        ensures
            r@ == self@,
    {
        DockerRunRequest {
            name: self.name.clone(),
            docker_args: self.docker_args.clone(),
            metadata: self.metadata.clone(),
        }
    }
}

} // verus!
