use vstd::prelude::*;

use std::collections::{BTreeMap, HashMap};

use crate::ids::{VmId, XoObject};
use crate::object_type::ObjectType;
use crate::string_map::{keys_ascending, lookup, pair_view, StringMap};
use crate::text::{contains, contains_sub, split_on_space, split_spaces};

verus! {

/// Type describing power state of VM
#[derive(Debug, Clone, Copy, PartialEq, Eq, Structural)]
pub enum PowerState {
    Running,
    Halted,
    Suspended,
    Paused,
}

/// The value that the last pair of `s` for `k` gives.
pub open spec fn last_value(s: Seq<(Seq<char>, Seq<char>)>, k: Seq<char>) -> Option<Seq<char>>
    decreases s.len(),
{
    if s.len() == 0 {
        None
    } else if s.last().0 == k {
        Some(s.last().1)
    } else {
        last_value(s.drop_last(), k)
    }
}

/// The map that inserting `pairs` in order gives: each key maps to the last
/// value given for it, and there is no other key.
pub open spec fn inserted_all(pairs: Seq<(String, String)>) -> Map<String, String>
    decreases pairs.len(),
{
    if pairs.len() == 0 {
        Map::empty()
    } else {
        inserted_all(pairs.drop_last()).insert(pairs.last().0, pairs.last().1)
    }
}

/// The "other" section of a VM: XO's own data (backup values, the template
/// the VM came from) and the user's custom fields, whose keys start with
/// "XenCenter.CustomFields.".
///
/// A type that can be built from that flat string-to-string object.
pub trait OtherInfo: Sized {
    /// Whether this value stands for the section whose entries are `pairs`,
    /// in the server's order.
    spec fn holds_pairs(&self, pairs: Seq<(Seq<char>, Seq<char>)>) -> bool;

    /// The value for the section's entries, in the server's order.
    fn from_pairs(pairs: Vec<(String, String)>) -> (r: Self)
        ensures
            r.holds_pairs(pairs@.map_values(|e: (String, String)| pair_view(e))),
    ;
}

/// Relies on `BTreeMap::insert`: `String`'s order is total and agrees with its
/// equality, so afterwards `key` maps to `value` and every other key keeps
/// its value.
#[verifier::external_body]
fn btree_insert(m: &mut BTreeMap<String, String>, key: String, value: String)
    ensures
        final(m)@ == old(m)@.insert(key, value),
{
    m.insert(key, value);
}

/// Relies on `HashMap::insert`: `String`'s hash agrees with its equality, so
/// afterwards `key` maps to `value` and every other key keeps its value.
#[verifier::external_body]
fn hash_insert(m: &mut HashMap<String, String>, key: String, value: String)
    ensures
        final(m)@ == old(m)@.insert(key, value),
{
    m.insert(key, value);
}

/// The captured section holds, for each key, the last value given for it,
/// in ascending key order.
impl OtherInfo for StringMap {
    open spec fn holds_pairs(&self, pairs: Seq<(Seq<char>, Seq<char>)>) -> bool {
        forall|k: Seq<char>| #[trigger] lookup(self@, k) == last_value(pairs, k)
    }

    fn from_pairs(pairs: Vec<(String, String)>) -> (r: Self) {
        let ghost all = pairs@.map_values(|e: (String, String)| pair_view(e));
        let mut m = StringMap::new();
        let mut pending = pairs;
        let ghost mut j: int = 0;
        assert forall|k: Seq<char>| #[trigger] lookup(m@, k) == last_value(all.subrange(0, 0), k) by {}
        while pending.len() > 0
            invariant
                0 <= j <= all.len(),
                pending@.map_values(|e: (String, String)| pair_view(e)) == all.subrange(
                    j,
                    all.len() as int,
                ),
                forall|k: Seq<char>| #[trigger] lookup(m@, k) == last_value(all.subrange(0, j), k),
            decreases pending.len(),
        {
            let ghost pv = pending@.map_values(|e: (String, String)| pair_view(e));
            let (key, value) = pending.remove(0);
            assert(pending@.map_values(|e: (String, String)| pair_view(e)) =~= pv.subrange(
                1,
                pv.len() as int,
            ));
            proof {
                assert(pv[0] == all.subrange(j, all.len() as int)[0]);
                assert(all[j] == (key@, value@));
            }
            let ghost before = m@;
            let ghost pre = all.subrange(0, j + 1);
            m.insert(key, value);
            proof {
                assert(pre.drop_last() =~= all.subrange(0, j));
                assert(pre.last() == all[j]);
                assert forall|k: Seq<char>| #[trigger] lookup(m@, k) == last_value(pre, k) by {
                    assert(lookup(before, k) == last_value(all.subrange(0, j), k));
                }
                j = j + 1;
                assert(pending@.map_values(|e: (String, String)| pair_view(e)) =~= all.subrange(
                    j,
                    all.len() as int,
                ));
            }
        }
        assert(all.subrange(0, j) =~= all);
        m
    }
}

/// The map holds, for each key, the last value given for it, and no other
/// key.
impl OtherInfo for BTreeMap<String, String> {
    open spec fn holds_pairs(&self, pairs: Seq<(Seq<char>, Seq<char>)>) -> bool {
        exists|p: Seq<(String, String)>|
            p.map_values(|e: (String, String)| pair_view(e)) == pairs && #[trigger] inserted_all(p)
                == self@
    }

    fn from_pairs(pairs: Vec<(String, String)>) -> (r: Self) {
        let ghost all = pairs@;
        let mut m: BTreeMap<String, String> = BTreeMap::new();
        let mut pending = pairs;
        let ghost mut j: int = 0;
        assert(m@ =~= inserted_all(all.subrange(0, 0)));
        while pending.len() > 0
            invariant
                0 <= j <= all.len(),
                pending@ == all.subrange(j, all.len() as int),
                m@ == inserted_all(all.subrange(0, j)),
            decreases pending.len(),
        {
            let (key, value) = pending.remove(0);
            proof {
                assert(all[j] == (key, value));
                let pre = all.subrange(0, j + 1);
                assert(pre.drop_last() =~= all.subrange(0, j));
            }
            btree_insert(&mut m, key, value);
            proof {
                j = j + 1;
                assert(pending@ =~= all.subrange(j, all.len() as int));
            }
        }
        assert(all.subrange(0, j) =~= all);
        m
    }
}

/// The map holds, for each key, the last value given for it, and no other
/// key.
impl OtherInfo for HashMap<String, String> {
    open spec fn holds_pairs(&self, pairs: Seq<(Seq<char>, Seq<char>)>) -> bool {
        exists|p: Seq<(String, String)>|
            p.map_values(|e: (String, String)| pair_view(e)) == pairs && #[trigger] inserted_all(p)
                == self@
    }

    fn from_pairs(pairs: Vec<(String, String)>) -> (r: Self) {
        let ghost all = pairs@;
        let mut m: HashMap<String, String> = HashMap::new();
        let mut pending = pairs;
        let ghost mut j: int = 0;
        assert(m@ =~= inserted_all(all.subrange(0, 0)));
        while pending.len() > 0
            invariant
                0 <= j <= all.len(),
                pending@ == all.subrange(j, all.len() as int),
                m@ == inserted_all(all.subrange(0, j)),
            decreases pending.len(),
        {
            let (key, value) = pending.remove(0);
            proof {
                assert(all[j] == (key, value));
                let pre = all.subrange(0, j + 1);
                assert(pre.drop_last() =~= all.subrange(0, j));
            }
            hash_insert(&mut m, key, value);
            proof {
                j = j + 1;
                assert(pending@ =~= all.subrange(j, all.len() as int));
            }
        }
        assert(all.subrange(0, j) =~= all);
        m
    }
}

/// A value of the "other" section built from a list of string pairs.
pub fn slice_to_map<T: OtherInfo>(slice: &[(&str, &str)]) -> (r: T)
    ensures
        r.holds_pairs(slice@.map_values(|e: (&str, &str)| (e.0@, e.1@))),
{
    let ghost sv = slice@.map_values(|e: (&str, &str)| (e.0@, e.1@));
    let mut pairs: Vec<(String, String)> = Vec::new();
    let mut i: usize = 0;
    while i < slice.len()
        invariant
            i <= slice.len(),
            sv == slice@.map_values(|e: (&str, &str)| (e.0@, e.1@)),
            pairs@.map_values(|e: (String, String)| pair_view(e)) == sv.subrange(0, i as int),
        decreases slice.len() - i,
    {
        let (k, v) = slice[i];
        let ghost before = pairs@.map_values(|e: (String, String)| pair_view(e));
        pairs.push((k.to_string(), v.to_string()));
        assert(pairs@.map_values(|e: (String, String)| pair_view(e)) =~= before.push((k@, v@)));
        assert(sv.subrange(0, i + 1) =~= sv.subrange(0, i as int).push(sv[i as int]));
        i = i + 1;
    }
    assert(sv.subrange(0, slice.len() as int) =~= sv);
    T::from_pairs(pairs)
}

/// The OS distribution that an OS-version map names: its `"distro"` entry;
/// else `"windows"` where it has a `"spmajor"` entry, which only Windows
/// guests report.
pub open spec fn distro_of(os_version: Seq<(Seq<char>, Seq<char>)>) -> Option<Seq<char>> {
    match lookup(os_version, "distro"@) {
        Some(d) => Some(d),
        None => if lookup(os_version, "spmajor"@) is Some {
            Some("windows"@)
        } else {
            None
        },
    }
}

/// The strings that an address map lists under its IPv4 keys (those that
/// contain `"ipv4"`), in the map's order, each value split on spaces.
pub open spec fn ipv4_address_strings_of(addresses: Seq<(Seq<char>, Seq<char>)>) -> Seq<Seq<char>>
    decreases addresses.len(),
{
    if addresses.len() == 0 {
        Seq::empty()
    } else {
        let before = ipv4_address_strings_of(addresses.drop_last());
        if contains_sub(addresses.last().0, "ipv4"@) {
            before + split_on_space(addresses.last().1)
        } else {
            before
        }
    }
}

/// Type representing a VM
///
/// The "other" section holds varied data, and the user may add to it; the
/// record is generic over the type `O` that stands for it. See the trait
/// [`OtherInfo`].
#[derive(Debug)]
pub struct Vm<O> {
    pub id: VmId,
    pub name_label: String,
    pub name_description: String,
    pub power_state: PowerState,
    /// Id of the pool the VM belongs to
    pub pool: String,
    pub tags: Vec<String>,
    /// Addresses reported by the guest, keyed like `"0/ipv4/0"`
    pub addresses: StringMap,
    /// OS information reported by the guest
    pub os_version: StringMap,
    pub other: O,
}

impl<O> XoObject for Vm<O> {
    type IdType = VmId;

    open spec fn spec_object_type() -> ObjectType {
        ObjectType::Vm
    }

    fn object_type() -> (r: ObjectType) {
        ObjectType::Vm
    }
}

impl<O> Vm<O> {
    /// Check if VM is running.
    pub fn is_running(&self) -> (r: bool)
        ensures
            r == (self.power_state == PowerState::Running),
    {
        matches!(self.power_state, PowerState::Running)
    }

    /// Try to guess OS distro of VM
    ///
    /// Only running VMs report one; `None` where it cannot be determined.
    pub fn distro(&self) -> (r: Option<&str>)
        ensures
            r is Some <==> distro_of(self.os_version@) is Some,
            r matches Some(d) ==> d@ == distro_of(self.os_version@)->0,
    {
        match self.os_version.get("distro") {
            Some(distro) => Some(distro.as_str()),
            None => if self.os_version.contains_key("spmajor") {
                Some("windows")
            } else {
                None
            },
        }
    }

    /// The address strings that the VM reports for IPv4, in order. Not all
    /// of them need be well-formed addresses.
    ///
    /// Only running VMs report addresses; the list is empty otherwise.
    pub fn ipv4_address_strings(&self) -> (r: Vec<String>)
        ensures
            keys_ascending(self.addresses@),
            r@.map_values(|s: String| s@) == ipv4_address_strings_of(self.addresses@),
    {
        let entries = self.addresses.entries();
        let mut r: Vec<String> = Vec::new();
        let mut i: usize = 0;
        while i < entries.len()
            invariant
                i <= entries.len(),
                entries@.map_values(|e: (String, String)| pair_view(e))
                    == self.addresses@,
                r@.map_values(|s: String| s@) == ipv4_address_strings_of(
                    self.addresses@.subrange(0, i as int),
                ),
            decreases entries.len() - i,
        {
            let ghost pre = self.addresses@.subrange(0, i + 1);
            assert(pre.drop_last() =~= self.addresses@.subrange(0, i as int));
            assert(pre.last() == pair_view(entries@[i as int]));
            let (key, value) = &entries[i];
            if contains(key.as_str(), "ipv4") {
                let mut pieces = split_spaces(value.as_str());
                let ghost rv = r@.map_values(|s: String| s@);
                let ghost pv = pieces@.map_values(|s: String| s@);
                r.append(&mut pieces);
                assert(r@.map_values(|s: String| s@) =~= rv + pv);
            }
            i = i + 1;
        }
        assert(self.addresses@.subrange(0, i as int) =~= self.addresses@);
        r
    }
}

} // verus!
