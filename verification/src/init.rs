//! Checks made before an instance is created.

use vstd::prelude::*;
use vstd::string::*;

verus! {

/// The name of the validation layer that is asked for.
pub open spec fn standard_validation_layer() -> Seq<char> {
    "VK_LAYER_LUNARG_standard_validation"@
}

/// The names of the validation layers that are asked for.
pub open spec fn required_layers() -> Seq<Seq<char>> {
    seq![standard_validation_layer()]
}

/// The names in `layers`.
pub open spec fn layer_names(layers: Seq<String>) -> Seq<Seq<char>> {
    layers.map_values(|layer: String| layer@)
}

/// Whether every layer of `required` is among `available`.
pub open spec fn layers_supported(required: Seq<Seq<char>>, available: Seq<Seq<char>>) -> bool {
    forall|i: int| 0 <= i < required.len() ==> available.contains(#[trigger] required[i])
}

/// The names of the validation layers that are asked for.
pub fn validation_layers() -> (layers: Vec<String>)
    ensures
        layer_names(layers@) == required_layers(),
{
    let mut layers: Vec<String> = Vec::new();
    layers.push(String::from_str("VK_LAYER_LUNARG_standard_validation"));
    assert(layer_names(layers@) =~= required_layers());
    layers
}

/// Whether `name` is one of `layers`.
pub fn has_layer(layers: &Vec<String>, name: &String) -> (found: bool)
    ensures
        found == layer_names(layers@).contains(name@),
{
    let mut i: usize = 0;
    while i < layers.len()
        invariant
            i <= layers@.len(),
            forall|j: int| 0 <= j < i ==> layer_names(layers@)[j] != name@,
        decreases layers@.len() - i,
    {
        if layers[i] == *name {
            assert(layer_names(layers@)[i as int] == name@);
            return true;
        }
        i += 1;
    }
    false
}

/// Whether the layers that the driver offers include every validation
/// layer that is asked for.
pub fn check_validation_layer_support(available: &Vec<String>) -> (supported: bool)
    ensures
        supported == layers_supported(required_layers(), layer_names(available@)),
{
    let required = validation_layers();
    let mut i: usize = 0;
    while i < required.len()
        invariant
            i <= required@.len(),
            layer_names(required@) == required_layers(),
            forall|j: int|
                0 <= j < i ==> layer_names(available@).contains(
                    #[trigger] layer_names(required@)[j],
                ),
        decreases required@.len() - i,
    {
        if !has_layer(available, &required[i]) {
            assert(layer_names(required@)[i as int] == required@[i as int]@);
            return false;
        }
        assert(layer_names(required@)[i as int] == required@[i as int]@);
        i += 1;
    }
    true
}

/// What becomes of the validation layers when the instance is made.
#[derive(Clone, Copy, Debug, PartialEq, Eq, Structural)]
pub enum ValidationLayers {
    /// They were asked for and are offered: the instance gets them.
    Used,
    /// They were asked for and are not all offered: the instance goes
    /// without them, and the user is warned.
    Missing,
    /// They were not asked for: the instance goes without them.
    NotRequested,
}

/// What becomes of the validation layers, given whether they were asked
/// for and which layers are offered.
pub open spec fn chosen_validation_layers(
    requested: bool,
    available: Seq<Seq<char>>,
) -> ValidationLayers {
    if !requested {
        ValidationLayers::NotRequested
    } else if layers_supported(required_layers(), available) {
        ValidationLayers::Used
    } else {
        ValidationLayers::Missing
    }
}

/// What becomes of the validation layers.  Where they were not asked for,
/// `available` is not looked at.
pub fn choose_validation_layers(requested: bool, available: &Vec<String>) -> (choice:
    ValidationLayers)
    ensures
        choice == chosen_validation_layers(requested, layer_names(available@)),
{
    if !requested {
        ValidationLayers::NotRequested
    } else if check_validation_layer_support(available) {
        ValidationLayers::Used
    } else {
        ValidationLayers::Missing
    }
}

} // verus!
