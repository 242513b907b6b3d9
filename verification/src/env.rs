//! The environment a guest observes: what the host defines of the runner's
//! variables, the pairs that mark a CI run, and what the guest's author asked
//! for, in that order.

use crate::github::{github_env, github_env_names, static_env_pairs, static_env_vars};
use vstd::prelude::*;
use vstd::string::*;

verus! {

/// What a list of pairs defines once it is applied in order: a later pair
/// replaces an earlier one of the same name.
pub open spec fn applied(pairs: Seq<(Seq<char>, Seq<char>)>) -> Map<Seq<char>, Seq<char>>
    decreases pairs.len(),
{
    if pairs.len() == 0 {
        Map::empty()
    } else {
        applied(pairs.drop_last()).insert(pairs.last().0, pairs.last().1)
    }
}

/// The value that `name` has once `table` is applied in order, if any pair defines it.
pub fn effective_value(table: &Vec<(String, String)>, name: &str) -> (value: Option<String>)
    ensures
        value is Some <==> applied(table.deep_view()).contains_key(name@),
        value matches Some(text) ==> text@ == applied(table.deep_view())[name@],
{
    let key = String::from_str(name);
    let mut value: Option<String> = None;
    let mut at: usize = 0;
    let ghost pairs = table.deep_view();
    while at < table.len()
        invariant
            at <= table.len(),
            pairs == table.deep_view(),
            key@ == name@,
            value is Some <==> applied(pairs.take(at as int)).contains_key(name@),
            value matches Some(text) ==> text@ == applied(pairs.take(at as int))[name@],
        decreases table.len() - at,
    {
        assert(pairs.take(at as int + 1).drop_last() =~= pairs.take(at as int));
        assert(pairs.take(at as int + 1).last() == (table[at as int].0@, table[at as int].1@));
        if table[at].0 == key {
            value = Some(table[at].1.clone());
        }
        at = at + 1;
    }
    assert(pairs.take(table.len() as int) =~= pairs);
    value
}

/// A snapshot of the host process environment, read by name.
pub struct HostEnv {
    vars: Vec<(String, String)>,
}

impl View for HostEnv {
    type V = Map<Seq<char>, Seq<char>>;

    closed spec fn view(&self) -> Map<Seq<char>, Seq<char>> {
        applied(self.vars.deep_view())
    }
}

impl HostEnv {
    /// An environment that defines nothing.
    pub fn new() -> (host: HostEnv)
        ensures
            host@ == Map::<Seq<char>, Seq<char>>::empty(),
    {
        let host = HostEnv { vars: Vec::new() };
        assert(host.vars.deep_view() =~= Seq::<(Seq<char>, Seq<char>)>::empty());
        host
    }

    /// Defines `name` as `value`, in place of what it was before.
    pub fn set(&mut self, name: String, value: String)
        ensures
            final(self)@ == old(self)@.insert(name@, value@),
    {
        self.vars.push((name, value));
        assert(self.vars.deep_view().drop_last() =~= old(self).vars.deep_view());
        assert(self.vars.deep_view().last() == (name@, value@));
    }

    /// The value of `name`, if the host defines it.
    pub fn get(&self, name: &str) -> (value: Option<String>)
        ensures
            value is Some <==> self@.contains_key(name@),
            value matches Some(text) ==> text@ == self@[name@],
    {
        effective_value(&self.vars, name)
    }
}

/// The pair that forwards `name` from `host`, if the host defines it.
pub open spec fn forwarder(host: Map<Seq<char>, Seq<char>>) -> spec_fn(Seq<char>) -> Option<
    (Seq<char>, Seq<char>),
> {
    |name: Seq<char>|
        if host.contains_key(name) {
            Some((name, host[name]))
        } else {
            None
        }
}

/// The names that the host defines, in the order given, each with its value.
pub open spec fn forwarded(names: Seq<Seq<char>>, host: Map<Seq<char>, Seq<char>>) -> Seq<
    (Seq<char>, Seq<char>),
> {
    names.filter_map(forwarder(host))
}

/// The environment table of a guest: the well-known names that the host
/// defines, then the fixed pairs, then the requested names that the host
/// defines.
pub open spec fn env_table(
    well_known: Seq<Seq<char>>,
    requested: Seq<Seq<char>>,
    host: Map<Seq<char>, Seq<char>>,
) -> Seq<(Seq<char>, Seq<char>)> {
    forwarded(well_known, host) + static_env_pairs() + forwarded(requested, host)
}

/// Appends the pair for `name` to `table` if the host defines it, and nothing otherwise.
fn forward(table: &mut Vec<(String, String)>, name: &str, host: &HostEnv)
    ensures
        final(table).deep_view() == old(table).deep_view() + (match forwarder(host@)(name@) {
            Some(pair) => seq![pair],
            None => Seq::empty(),
        }),
{
    match host.get(name) {
        Some(value) => {
            table.push((String::from_str(name), value));
            assert(table.deep_view() =~= old(table).deep_view() + seq![(name@, host@[name@])]);
        },
        None => {
            assert(table.deep_view() =~= old(table).deep_view() + Seq::<
                (Seq<char>, Seq<char>),
            >::empty());
        },
    }
}

/// Builds the environment table from the given list of well-known names.
/// A name that the host does not define is passed over; nothing here fails.
pub fn assemble_env(well_known: &Vec<&str>, requested: &Vec<String>, host: &HostEnv) -> (table:
    Vec<(String, String)>)
    ensures
        table.deep_view() == env_table(well_known.deep_view(), requested.deep_view(), host@),
{
    let mut table: Vec<(String, String)> = Vec::new();
    let ghost first = well_known.deep_view();
    let ghost last = requested.deep_view();
    assert(table.deep_view() =~= forwarded(first.take(0), host@));

    let mut at: usize = 0;
    while at < well_known.len()
        invariant
            at <= well_known.len(),
            first == well_known.deep_view(),
            table.deep_view() == forwarded(first.take(at as int), host@),
        decreases well_known.len() - at,
    {
        proof {
            first.lemma_filter_map_take_succ(forwarder(host@), at as int);
        }
        forward(&mut table, well_known[at], host);
        at = at + 1;
    }
    assert(first.take(well_known.len() as int) =~= first);

    let fixed = static_env_vars();
    let mut at: usize = 0;
    while at < fixed.len()
        invariant
            at <= fixed.len(),
            fixed.deep_view() == static_env_pairs(),
            table.deep_view() == forwarded(first, host@) + static_env_pairs().take(at as int),
        decreases fixed.len() - at,
    {
        let ghost before = table.deep_view();
        table.push((String::from_str(fixed[at].0), String::from_str(fixed[at].1)));
        assert(table.deep_view() =~= before.push(static_env_pairs()[at as int]));
        assert(forwarded(first, host@) + static_env_pairs().take(at as int + 1) =~= before.push(
            static_env_pairs()[at as int],
        ));
        at = at + 1;
    }
    assert(static_env_pairs().take(fixed.len() as int) =~= static_env_pairs());

    let ghost head = forwarded(first, host@) + static_env_pairs();
    assert(table.deep_view() =~= head + forwarded(last.take(0), host@));
    let mut at: usize = 0;
    while at < requested.len()
        invariant
            at <= requested.len(),
            last == requested.deep_view(),
            table.deep_view() == head + forwarded(last.take(at as int), host@),
        decreases requested.len() - at,
    {
        proof {
            last.lemma_filter_map_take_succ(forwarder(host@), at as int);
        }
        forward(&mut table, requested[at].as_str(), host);
        at = at + 1;
        assert(table.deep_view() =~= head + forwarded(last.take(at as int), host@));
    }
    assert(last.take(requested.len() as int) =~= last);
    table
}

/// The environment table of a guest whose author asked for `requested_by_user`.
pub fn get_env_for_component(requested_by_user: Vec<String>, host: &HostEnv) -> (table: Vec<
    (String, String),
>)
    ensures
        table.deep_view() == env_table(github_env_names(), requested_by_user.deep_view(), host@),
{
    let well_known = github_env();
    assemble_env(&well_known, &requested_by_user, host)
}

/// Applying one list after another gives what the first defines, replaced by
/// what the second defines wherever both define a name.
pub proof fn lemma_applied_in_sequence(
    first: Seq<(Seq<char>, Seq<char>)>,
    second: Seq<(Seq<char>, Seq<char>)>,
)
    ensures
        applied(first + second) == applied(first).union_prefer_right(applied(second)),
    decreases second.len(),
{
    if second.len() == 0 {
        assert(first + second =~= first);
        assert(applied(first) =~= applied(first).union_prefer_right(applied(second)));
    } else {
        lemma_applied_in_sequence(first, second.drop_last());
        assert((first + second).drop_last() =~= first + second.drop_last());
        assert(applied(first + second) =~= applied(first).union_prefer_right(applied(second)));
    }
}

/// Applying what was forwarded from the host gives the host's own values, for
/// exactly the names that were asked for and that the host defines.
pub proof fn lemma_forwarded_is_the_hosts(names: Seq<Seq<char>>, host: Map<Seq<char>, Seq<char>>)
    ensures
        applied(forwarded(names, host)) == host.restrict(names.to_set()),
    decreases names.len(),
{
    if names.len() == 0 {
        assert(applied(forwarded(names, host)) =~= host.restrict(names.to_set()));
    } else {
        let rest = names.drop_last();
        let name = names.last();
        lemma_forwarded_is_the_hosts(rest, host);
        assert forall|other: Seq<char>| names.contains(other) <==> (rest.contains(other) || other
            == name) by {
            if names.contains(other) {
                let at = choose|at: int| 0 <= at < names.len() && names[at] == other;
                if at < names.len() - 1 {
                    assert(rest[at] == other);
                }
            }
            if rest.contains(other) {
                let at = choose|at: int| 0 <= at < rest.len() && rest[at] == other;
                assert(names[at] == other);
            }
            assert(names[names.len() - 1] == name);
        }
        if host.contains_key(name) {
            let pair = (name, host[name]);
            assert(forwarded(names, host) == forwarded(rest, host) + seq![pair]);
            assert(forwarded(names, host).drop_last() =~= forwarded(rest, host));
            assert(forwarded(names, host).last() == pair);
        }
        assert(applied(forwarded(names, host)) =~= host.restrict(names.to_set()));
    }
}

/// A forwarded name keeps the host's value when the table is applied, however
/// often the table holds it: a name that the guest's author asked for always,
/// and a well-known name unless a fixed pair of the same name replaces it.
pub proof fn lemma_forwarded_name_keeps_host_value(
    well_known: Seq<Seq<char>>,
    requested: Seq<Seq<char>>,
    host: Map<Seq<char>, Seq<char>>,
    name: Seq<char>,
)
    requires
        host.contains_key(name),
        requested.contains(name) || (well_known.contains(name) && !applied(
            static_env_pairs(),
        ).contains_key(name)),
    ensures
        applied(env_table(well_known, requested, host)).contains_key(name),
        applied(env_table(well_known, requested, host))[name] == host[name],
{
    let head = forwarded(well_known, host) + static_env_pairs();
    lemma_applied_in_sequence(head, forwarded(requested, host));
    lemma_applied_in_sequence(forwarded(well_known, host), static_env_pairs());
    lemma_forwarded_is_the_hosts(well_known, host);
    lemma_forwarded_is_the_hosts(requested, host);
}

} // verus!
