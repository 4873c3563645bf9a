//! The optional capabilities that the application asks for, and the set of
//! layers that the platform offers.

use vstd::prelude::*;
use crate::platform::version_reaches;

verus! {

/// A version of the graphics API, ordered by major, then minor, then patch.
#[derive(Clone, Copy, Debug, PartialEq, Eq, Structural)]
pub struct ApiVersion {
    pub major: u32,
    pub minor: u32,
    pub patch: u32,
}

impl ApiVersion {
    /// Whether `self` is `other` or a later version.
    pub open spec fn at_least(self, other: ApiVersion) -> bool {
        self.major > other.major || (self.major == other.major && (self.minor > other.minor || (
        self.minor == other.minor && self.patch >= other.patch)))
    }

    /// Decides `at_least`.
    pub fn reaches(&self, other: &ApiVersion) -> (reached: bool)
        ensures
            reached == self.at_least(*other),
    {
        version_reaches(self.major, self.minor, self.patch, other.major, other.minor, other.patch)
    }
}

/// The first version on which the portability extensions are enabled.
pub open spec fn portability_threshold() -> ApiVersion {
    ApiVersion { major: 1, minor: 3, patch: 216 }
}

/// The name of the validation layer, as a sequence of characters.
pub open spec fn validation_layer() -> Seq<char> {
    "VK_LAYER_KHRONOS_validation"@
}

/// The names that occur in `layers`: duplicates collapse and the order is
/// forgotten.
pub open spec fn availability_set(layers: Seq<String>) -> Set<Seq<char>> {
    Set::new(|name: Seq<char>| exists|i: int| 0 <= i < layers.len() && (#[trigger] layers[i])@ == name)
}

/// `portability_threshold` as a value.
pub fn portability_macos_version() -> (version: ApiVersion)
    ensures
        version == portability_threshold(),
{
    ApiVersion { major: 1, minor: 3, patch: 216 }
}

/// The name of the validation layer.
pub fn validation_layer_identifier() -> (name: String)
    ensures
        name@ == validation_layer(),
{
    String::from_str("VK_LAYER_KHRONOS_validation")
}

/// Whether no name occurs twice in `names`.
pub open spec fn distinct(names: Seq<String>) -> bool {
    forall|i: int, j: int| 0 <= i < j < names.len() ==> (#[trigger] names[i])@ != (#[trigger] names[j])@
}

/// Whether `name` occurs in `layers`.
pub fn is_listed(layers: &Vec<String>, name: &String) -> (found: bool)
    ensures
        found == availability_set(layers@).contains(name@),
{
    let mut i: usize = 0;
    while i < layers.len()
        invariant
            i <= layers.len(),
            forall|j: int| 0 <= j < i ==> (#[trigger] layers@[j])@ != name@,
        decreases layers.len() - i,
    {
        if layers[i] == *name {
            return true;
        }
        i += 1;
    }
    false
}

/// The layers that the platform offers at the time of the probe. Each name
/// is held once, in the order of its first report.
#[derive(Debug)]
pub struct AvailabilitySet {
    pub names: Vec<String>,
}

impl View for AvailabilitySet {
    type V = Set<Seq<char>>;

    open spec fn view(&self) -> Set<Seq<char>> {
        availability_set(self.names@)
    }
}

impl AvailabilitySet {
    /// No name is held twice.
    pub open spec fn well_formed(&self) -> bool {
        distinct(self.names@)
    }

    /// Collects the names that the platform reported: duplicates collapse.
    pub fn probe(layers: &Vec<String>) -> (available: AvailabilitySet)
        ensures
            available.well_formed(),
            available@ == availability_set(layers@),
    {
        let mut names: Vec<String> = Vec::new();
        let mut i: usize = 0;
        while i < layers.len()
            invariant
                i <= layers.len(),
                distinct(names@),
                availability_set(names@) == availability_set(layers@.take(i as int)),
            decreases layers.len() - i,
        {
            let ghost before = names@;
            let ghost seen = layers@.take(i as int);
            let ghost next = layers@.take(i + 1);
            let known = is_listed(&names, &layers[i]);
            if !known {
                names.push(layers[i].clone());
            }
            proof {
                let added = layers@[i as int]@;
                assert(next[i as int] == layers@[i as int]);
                assert forall|name: Seq<char>|
                    availability_set(names@).contains(name) == availability_set(next).contains(
                        name,
                    ) by {
                    assert(availability_set(before).contains(name) == availability_set(
                        seen,
                    ).contains(name));
                    if availability_set(names@).contains(name) {
                        let k = choose|k: int| 0 <= k < names@.len() && (#[trigger] names@[k])@ == name;
                        if k < before.len() {
                            assert(before[k]@ == name);
                            let j = choose|j: int| 0 <= j < seen.len() && (#[trigger] seen[j])@ == name;
                            assert(next[j]@ == name);
                        } else {
                            assert(next[i as int]@ == name);
                        }
                    }
                    if availability_set(next).contains(name) {
                        let j = choose|j: int| 0 <= j < next.len() && (#[trigger] next[j])@ == name;
                        if j < i {
                            assert(seen[j]@ == name);
                            let k = choose|k: int|
                                0 <= k < before.len() && (#[trigger] before[k])@ == name;
                            assert(names@[k]@ == name);
                        } else if known {
                            let k = choose|k: int|
                                0 <= k < before.len() && (#[trigger] before[k])@ == added;
                            assert(names@[k]@ == name);
                        } else {
                            assert(names@[before.len() as int]@ == name);
                        }
                    }
                }
                assert(availability_set(names@) =~= availability_set(next));
                assert forall|a: int, b: int| 0 <= a < b < names@.len() implies (#[trigger] names@[a])@
                    != (#[trigger] names@[b])@ by {
                    if b < before.len() {
                        assert(before[a]@ != before[b]@);
                    } else {
                        assert(names@[a] == before[a]);
                    }
                }
            }
            i += 1;
        }
        assert(layers@.take(i as int) =~= layers@);
        AvailabilitySet { names }
    }

    /// Whether the platform offers the layer `name`.
    pub fn contains(&self, name: &String) -> (found: bool)
        ensures
            found == self@.contains(name@),
    {
        is_listed(&self.names, name)
    }
}

} // verus!
