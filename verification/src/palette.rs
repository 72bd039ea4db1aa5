//! The palette's fixed size and the decisions that turn its per-property
//! classification into a material: which textures are generated and which
//! scalar stands in where none is.
//!
//! The library is generic in the type of a property's value, so that it
//! can state these rules without doing arithmetic on them.

use vstd::prelude::*;

verus! {

/// The number of slots of a palette: one for every value of a stored voxel.
pub const PALETTE_SIZE: usize = 256;

/// Whether a physical property is the same for all elements of a palette,
/// within tolerance, or differs between them.
#[derive(Clone, Copy, PartialEq, Eq, Debug)]
pub enum MaterialProperty<T> {
    /// The elements differ: the property needs a texture.
    VariesPerElement,
    /// All elements agree on this value: a scalar will do.
    Constant(T),
}

/// A scalar of the material: the property's constant, or one where a
/// texture carries the values and the scalar only scales them.
#[derive(Clone, Copy, PartialEq, Eq, Debug)]
pub enum Scalar<T> {
    /// The neutral factor 1.
    One,
    /// The constant that all elements agree on.
    Value(T),
}

/// Which textures a material gets besides its base colour, and the scalars
/// that go with them.
#[derive(Clone, Copy, PartialEq, Eq, Debug)]
pub struct MaterialPlan<T> {
    /// Whether an emissive texture is generated; the emissive colour is
    /// white where it is and black where it is not.
    pub emissive_texture: bool,
    /// Whether the combined roughness/metalness texture is generated.
    pub metallic_roughness_texture: bool,
    /// Whether a translucency texture is generated.
    pub specular_transmission_texture: bool,
    /// The perceptual roughness.
    pub perceptual_roughness: Scalar<T>,
    /// The metalness.
    pub metallic: Scalar<T>,
    /// The specular transmission.
    pub specular_transmission: Scalar<T>,
}

/// The first `PALETTE_SIZE` of `elements`, followed by as many copies of
/// `inert` as it takes to fill the palette.
pub open spec fn padded<E>(elements: Seq<E>, inert: E) -> Seq<E> {
    Seq::new(
        256,
        |i: int|
            if i < elements.len() {
                elements[i]
            } else {
                inert
            },
    )
}

/// Brings a list of elements to the palette's size: a short list is padded
/// with the inert element, a long one cut off, so that every stored voxel
/// value indexes validly.
pub fn padded_elements<E: Copy>(elements: &Vec<E>, inert: E) -> (palette: Vec<E>)
    ensures
        palette@ == padded(elements@, inert),
        palette@.len() == PALETTE_SIZE,
{
    let mut palette: Vec<E> = Vec::new();
    let mut i: usize = 0;
    while i < PALETTE_SIZE
        invariant
            i <= PALETTE_SIZE,
            palette@.len() == i,
            forall|k: int|
                0 <= k < i ==> #[trigger] palette@[k] == (if k < elements@.len() {
                    elements@[k]
                } else {
                    inert
                }),
        decreases PALETTE_SIZE - i,
    {
        if i < elements.len() {
            palette.push(elements[i]);
        } else {
            palette.push(inert);
        }
        i = i + 1;
    }
    proof {
        assert(palette@ =~= padded(elements@, inert));
    }
    palette
}

impl<T> MaterialProperty<T> {
    /// Whether the property differs between elements.
    pub open spec fn varies(self) -> bool {
        self is VariesPerElement
    }
}

/// The scalar for a property whose values a texture carries when
/// `textured` holds.
pub open spec fn scalar_of<T>(textured: bool, property: MaterialProperty<T>) -> Scalar<T> {
    match property {
        MaterialProperty::VariesPerElement => Scalar::One,
        MaterialProperty::Constant(value) => if textured {
            Scalar::One
        } else {
            Scalar::Value(value)
        },
    }
}

/// The material that a palette's classification calls for: an emissive
/// texture where emission varies or is a positive constant; one combined
/// roughness/metalness texture where either of the two varies, and then
/// both scalars are 1; a translucency texture where translucency varies.
pub open spec fn plan_of<T>(
    emission: MaterialProperty<T>,
    emission_is_positive: bool,
    roughness: MaterialProperty<T>,
    metalness: MaterialProperty<T>,
    transmission: MaterialProperty<T>,
) -> MaterialPlan<T> {
    let rough_metal = roughness.varies() || metalness.varies();
    MaterialPlan {
        emissive_texture: emission.varies() || emission_is_positive,
        metallic_roughness_texture: rough_metal,
        specular_transmission_texture: transmission.varies(),
        perceptual_roughness: scalar_of(rough_metal, roughness),
        metallic: scalar_of(rough_metal, metalness),
        specular_transmission: scalar_of(false, transmission),
    }
}

/// Picks the scalar for a property.
fn scalar_for<T: Copy>(textured: bool, property: &MaterialProperty<T>) -> (scalar: Scalar<T>)
    ensures
        scalar == scalar_of(textured, *property),
{
    match property {
        MaterialProperty::VariesPerElement => Scalar::One,
        MaterialProperty::Constant(value) => if textured {
            Scalar::One
        } else {
            Scalar::Value(*value)
        },
    }
}

/// Decides which textures a material gets and which scalars stand in for
/// the constant properties. `emission_is_positive` says whether a constant
/// emission is above zero; it is not looked at where emission varies.
pub fn plan_material<T: Copy>(
    emission: &MaterialProperty<T>,
    emission_is_positive: bool,
    roughness: &MaterialProperty<T>,
    metalness: &MaterialProperty<T>,
    transmission: &MaterialProperty<T>,
) -> (plan: MaterialPlan<T>)
    ensures
        plan == plan_of(*emission, emission_is_positive, *roughness, *metalness, *transmission),
{
    let has_emission = match emission {
        MaterialProperty::VariesPerElement => true,
        MaterialProperty::Constant(_) => emission_is_positive,
    };
    let has_roughness = matches!(roughness, MaterialProperty::VariesPerElement);
    let has_metalness = matches!(metalness, MaterialProperty::VariesPerElement);
    let has_roughness_metalness = has_roughness || has_metalness;
    let has_translucency = matches!(transmission, MaterialProperty::VariesPerElement);
    MaterialPlan {
        emissive_texture: has_emission,
        metallic_roughness_texture: has_roughness_metalness,
        specular_transmission_texture: has_translucency,
        perceptual_roughness: scalar_for(has_roughness_metalness, roughness),
        metallic: scalar_for(has_roughness_metalness, metalness),
        specular_transmission: scalar_for(false, transmission),
    }
}

/// The palette index at which the stretch of gradient stop `k` ends: the
/// index of the next stop, or 254 for the last stop.
pub open spec fn stop_end<E>(stops: Seq<(u8, E)>, k: int) -> int {
    if k + 1 < stops.len() {
        stops[k + 1].0 as int
    } else {
        254
    }
}

/// The element that the stretch of gradient stop `k` runs towards: that of
/// the next stop, or the stop's own for the last stop.
pub open spec fn stop_target<E>(stops: Seq<(u8, E)>, k: int) -> E {
    if k + 1 < stops.len() {
        stops[k + 1].1
    } else {
        stops[k].1
    }
}

/// Whether palette index `i` lies in the stretch of gradient stop `k`.
pub open spec fn covers<E>(stops: Seq<(u8, E)>, k: int, i: int) -> bool {
    0 <= k < stops.len() && stops[k].0 <= i < stop_end(stops, k)
}

/// Whether the gradient stops are in ascending order of index and none lies
/// beyond 254.
pub open spec fn stops_ascend<E>(stops: Seq<(u8, E)>) -> bool {
    &&& forall|a: int, b: int| 0 <= a <= b < stops.len() ==> stops[a].0 <= stops[b].0
    &&& forall|a: int| 0 <= a < stops.len() ==> stops[a].0 <= 254
}

/// Whether `element` is what `mix` gives for palette index `i` in the
/// stretch of stop `k`: the stop's element and its target, mixed at `i`'s
/// distance from the stop out of the stretch's length.
pub open spec fn mixed<E, F: Fn(&E, &E, u8, u8) -> E>(
    stops: Seq<(u8, E)>,
    k: int,
    i: int,
    element: E,
    mix: &F,
) -> bool {
    call_ensures(
        *mix,
        (
            &stops[k].1,
            &stop_target(stops, k),
            (i - stops[k].0) as u8,
            (stop_end(stops, k) - stops[k].0) as u8,
        ),
        element,
    )
}

/// Whether `mix` may be called at every palette index of every stretch.
pub open spec fn mixes<E, F: Fn(&E, &E, u8, u8) -> E>(stops: Seq<(u8, E)>, mix: &F) -> bool {
    forall|k: int, i: int| #[trigger]
        covers(stops, k, i) ==> call_requires(
            *mix,
            (
                &stops[k].1,
                &stop_target(stops, k),
                (i - stops[k].0) as u8,
                (stop_end(stops, k) - stops[k].0) as u8,
            ),
        )
}

/// Whether `elements` is the gradient through the first `upto` stops: a
/// full palette in which every index in the stretch of one of those stops
/// is mixed from it, and every other index holds the inert element.
pub open spec fn is_gradient_up_to<E, F: Fn(&E, &E, u8, u8) -> E>(
    elements: Seq<E>,
    stops: Seq<(u8, E)>,
    upto: int,
    inert: E,
    mix: &F,
) -> bool {
    &&& elements.len() == 256
    &&& forall|k: int, i: int|
        0 <= k < upto && #[trigger] covers(stops, k, i) ==> mixed(stops, k, i, elements[i], mix)
    &&& forall|i: int|
        0 <= i < 256 && (forall|k: int| 0 <= k < upto ==> !covers(stops, k, i))
            ==> #[trigger] elements[i] == inert
}

/// Fills a palette by interpolating between gradient stops: from each stop
/// up to the next, and from the last stop up to index 254, each element is
/// mixed from the stop's element and the next stop's by `mix`, which is
/// handed the step from the stop and the length of the stretch. Indices in
/// no stretch hold the inert element.
pub fn gradient_elements<E: Copy, F: Fn(&E, &E, u8, u8) -> E>(
    stops: &Vec<(u8, E)>,
    inert: E,
    mix: &F,
) -> (elements: Vec<E>)
    requires
        stops_ascend(stops@),
        mixes(stops@, mix),
    ensures
        is_gradient_up_to(elements@, stops@, stops@.len() as int, inert, mix),
{
    let none: Vec<E> = Vec::new();
    let mut elements = padded_elements(&none, inert);
    let mut k: usize = 0;
    while k < stops.len()
        invariant
            k <= stops@.len(),
            stops_ascend(stops@),
            mixes(stops@, mix),
            is_gradient_up_to(elements@, stops@, k as int, inert, mix),
        decreases stops@.len() - k,
    {
        let stop: u8 = stops[k].0;
        let element: E = stops[k].1;
        let (next_stop, next_element): (u8, E) = if k + 1 < stops.len() {
            (stops[k + 1].0, stops[k + 1].1)
        } else {
            (254, element)
        };
        assert(next_stop == stop_end(stops@, k as int));
        assert(next_element == stop_target(stops@, k as int));
        let distance: u8 = next_stop - stop;
        let mut i: u8 = stop;
        while i < next_stop
            invariant
                k < stops@.len(),
                stop <= i <= next_stop,
                stop == stops@[k as int].0,
                element == stops@[k as int].1,
                next_stop == stop_end(stops@, k as int),
                next_element == stop_target(stops@, k as int),
                distance == next_stop - stop,
                stops_ascend(stops@),
                mixes(stops@, mix),
                elements@.len() == 256,
                forall|j: int, at: int|
                    0 <= j < k && #[trigger] covers(stops@, j, at) ==> mixed(
                        stops@,
                        j,
                        at,
                        elements@[at],
                        mix,
                    ),
                forall|at: int|
                    stop <= at < i ==> mixed(stops@, k as int, at, #[trigger] elements@[at], mix),
                forall|at: int|
                    0 <= at < 256 && !(stop <= at < i) && (forall|j: int|
                        0 <= j < k ==> !covers(stops@, j, at)) ==> #[trigger] elements@[at]
                        == inert,
            decreases next_stop - i,
        {
            assert(covers(stops@, k as int, i as int));
            let blend = mix(&element, &next_element, i - stop, distance);
            let ghost earlier = elements@;
            elements.set(i as usize, blend);
            proof {
                assert forall|j: int, at: int|
                    0 <= j < k && #[trigger] covers(stops@, j, at) implies mixed(
                    stops@,
                    j,
                    at,
                    elements@[at],
                    mix,
                ) by {
                    assert(stop_end(stops@, j) <= stop);
                    assert(at != i);
                    assert(elements@[at] == earlier[at]);
                }
            }
            i = i + 1;
        }
        proof {
            assert forall|at: int|
                0 <= at < 256 && (forall|j: int| 0 <= j < k + 1 ==> !covers(stops@, j, at))
                    implies #[trigger] elements@[at] == inert by {
                assert(!covers(stops@, k as int, at));
            }
        }
        k = k + 1;
    }
    elements
}

} // verus!
