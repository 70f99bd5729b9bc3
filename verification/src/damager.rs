use vstd::prelude::*;

use dashmap::DashSet;

use crate::dash::{damager_set_contents, damager_set_insert, damager_set_list, damager_set_new};
use crate::text::{
    ascii_eq_ignore_case, ascii_lowercase, eq_ignore_ascii_case, lemma_ascii_lowercase_idempotent,
};

verus! {

/// A damager difficulty: its name, the damage dealt per hit and the delay
/// between hits.
#[derive(Clone, Debug, PartialEq, Eq, Hash)]
pub struct Damager {
    pub name: String,
    pub damage: i32,
    pub delay: u32,
}

/// A damager as plain values: name, damage, delay.
pub type DamagerView = (Seq<char>, i32, u32);

impl View for Damager {
    type V = DamagerView;

    open spec fn view(&self) -> DamagerView {
        (self.name@, self.damage, self.delay)
    }
}

/// The error of parsing a damager name that no registered damager has.
#[derive(Debug, PartialEq, Eq, Clone, Copy)]
pub struct ParseDamagerError;

/// The views of a list of damagers, in order.
pub open spec fn damager_views(s: Seq<Damager>) -> Seq<DamagerView> {
    s.map_values(|d: Damager| d@)
}

/// The names of a list of damagers, in order.
pub open spec fn damager_names(s: Seq<DamagerView>) -> Seq<Seq<char>> {
    s.map_values(|d: DamagerView| d.0)
}

/// The character sequences of a list of strings, in order.
pub open spec fn string_views(s: Seq<String>) -> Seq<Seq<char>> {
    s.map_values(|x: String| x@)
}

/// `name` matches a damager's name when they are equal up to ASCII case.
pub open spec fn name_matches(d: DamagerView, name: Seq<char>) -> bool {
    ascii_eq_ignore_case(d.0, name)
}

/// `list` joined with `sep` between each two neighbours.
pub open spec fn joined(list: Seq<Seq<char>>, sep: Seq<char>) -> Seq<char>
    decreases list.len(),
{
    if list.len() == 0 {
        Seq::empty()
    } else if list.len() == 1 {
        list[0]
    } else {
        joined(list.drop_last(), sep) + sep + list.last()
    }
}

/// The start of the message that answers an unknown damager name.
pub open spec fn invalid_arg_prefix() -> Seq<char> {
    "Invalid argument. Possible options are: "@
}

/// The whole message for the given damager names, in the given order.
pub open spec fn invalid_arg_msg_for(names: Seq<Seq<char>>) -> Seq<char> {
    invalid_arg_prefix() + joined(names, ", "@)
}

/// `order` lists each damager of `contents` exactly once.
pub open spec fn is_listing_of(order: Seq<DamagerView>, contents: Set<DamagerView>) -> bool {
    &&& order.no_duplicates()
    &&& order.to_set() == contents
}


/// The damagers that the plugin knows, each once.
pub struct DamagerRegistry {
    damagers: DashSet<Damager>,
}

impl View for DamagerRegistry {
    type V = Set<DamagerView>;

    closed spec fn view(&self) -> Set<DamagerView> {
        damager_set_contents(self.damagers)
    }
}

/// Some registered damager's name matches `name` up to ASCII case.
pub open spec fn has_matching_name(reg: Set<DamagerView>, name: Seq<char>) -> bool {
    exists|d: DamagerView| reg.contains(d) && name_matches(d, name)
}

impl DamagerRegistry {
    /// A registry with no damager.
    pub fn new() -> (res: Self)
        ensures
            res@ == Set::<DamagerView>::empty(),
    {
        DamagerRegistry { damagers: damager_set_new() }
    }

    /// Adds a damager; the result tells whether it was not there before.
    pub fn insert(&mut self, d: Damager) -> (res: bool)
        ensures
            final(self)@ == old(self)@.insert(d@),
            res == !old(self)@.contains(d@),
    {
        damager_set_insert(&mut self.damagers, d)
    }

    /// The registered damagers, each once, in the registry's own order.
    pub fn list(&self) -> (res: Vec<Damager>)
        ensures
            is_listing_of(damager_views(res@), self@),
    {
        damager_set_list(&self.damagers)
    }

    /// The names of the registered damagers, each damager once, in the
    /// registry's own order.
    pub fn names(&self) -> (res: Vec<String>)
        ensures
            exists|order: Seq<DamagerView>|
                is_listing_of(order, self@) && #[trigger] string_views(res@) == damager_names(order),
    {
        let list = self.list();
        let ghost views = damager_views(list@);
        let mut res: Vec<String> = Vec::new();
        let n = list.len();
        for i in 0..n
            invariant
                n == list.len(),
                views == damager_views(list@),
                res.len() == i,
                forall|j: int| 0 <= j < i ==> #[trigger] res@[j]@ == views[j].0,
        {
            res.push(list[i].name.clone());
        }
        assert(string_views(res@) =~= damager_names(views));
        res
    }

    /// Whether some registered damager is named `name`, up to ASCII case.
    pub fn contains_name(&self, name: &str) -> (res: bool)
        ensures
            res == has_matching_name(self@, name@),
    {
        match self.find(name) {
            Some(_) => true,
            None => false,
        }
    }

    /// A registered damager named `name` up to ASCII case, if there is one.
    /// Where several match, which one comes back is left open.
    pub fn find(&self, name: &str) -> (res: Option<Damager>)
        ensures
            res is None <==> !has_matching_name(self@, name@),
            forall|d: DamagerView|
                self@.contains(d) && #[trigger] ascii_lowercase(d.0) == ascii_lowercase(name@) ==> res is Some,
            res matches Some(d) ==> self@.contains(d@) && name_matches(d@, name@),
    {
        let mut list = self.list();
        let ghost views = damager_views(list@);
        let n = list.len();
        let mut i: usize = 0;
        while i < n
            invariant
                n == list.len(),
                damager_views(list@) == views,
                is_listing_of(views, self@),
                i <= n,
                forall|j: int| 0 <= j < i ==> !name_matches(#[trigger] views[j], name@),
            decreases n - i,
        {
            if eq_ignore_ascii_case(list[i].name.as_str(), name) {
                proof {
                    assert(views[i as int] == list@[i as int]@);
                    assert(views.to_set().contains(views[i as int]));
                }
                let d = list.swap_remove(i);
                return Some(d);
            }
            i = i + 1;
        }
        proof {
            assert forall|d: DamagerView| self@.contains(d) implies !name_matches(d, name@) by {
                assert(views.to_set().contains(d));
                assert(views.contains(d));
                let j = choose|j: int| 0 <= j < views.len() && views[j] == d;
                assert(!name_matches(views[j], name@));
            }
        }
        None
    }
}


impl Damager {
    /// The registered damager whose name is `s` up to ASCII case. Where
    /// several match, which one comes back is left open.
    pub fn from_str_in(registry: &DamagerRegistry, s: &str) -> (res: Result<Damager, ParseDamagerError>)
        ensures
            res is Err <==> !has_matching_name(registry@, s@),
            res matches Ok(d) ==> registry@.contains(d@) && name_matches(d@, s@),
    {
        match registry.find(s) {
            Some(d) => Ok(d),
            None => Err(ParseDamagerError),
        }
    }
}


/// A name finds a damager exactly when its ASCII lower-case form does.
pub proof fn lemma_lookup_ignores_case(registry: Set<DamagerView>, name: Seq<char>)
    ensures
        has_matching_name(registry, name) == has_matching_name(registry, ascii_lowercase(name)),
{
    lemma_ascii_lowercase_idempotent(name);
    if has_matching_name(registry, name) {
        let d = choose|d: DamagerView| registry.contains(d) && name_matches(d, name);
        assert(name_matches(d, ascii_lowercase(name)));
    }
    if has_matching_name(registry, ascii_lowercase(name)) {
        let d = choose|d: DamagerView| registry.contains(d) && name_matches(d, ascii_lowercase(name));
        assert(name_matches(d, name));
    }
}


/// A name matches a damager exactly when both are equal after ASCII lower-casing,
/// whatever the damager's damage and delay.
pub proof fn lemma_name_matches_lowercase(d: DamagerView, name: Seq<char>)
    ensures
        name_matches(d, name) <==> ascii_lowercase(d.0) == ascii_lowercase(name),
{
}

/// Every registered damager is found by its own name, and by any name equal to
/// it after ASCII lower-casing.
pub proof fn lemma_registered_damager_found(registry: Set<DamagerView>, d: DamagerView, name: Seq<char>)
    requires
        registry.contains(d),
        ascii_lowercase(name) == ascii_lowercase(d.0),
    ensures
        has_matching_name(registry, name),
        has_matching_name(registry, d.0),
{
    assert(name_matches(d, name));
    assert(name_matches(d, d.0));
}

} // verus!
