//! The three texture slots and the bind group built from them.

use crate::pipeline::layout_entries;
use bevy_asset::HandleId;
use bevy_render::render_resource::BindGroup;
use vstd::prelude::*;

verus! {

/// `bevy_asset::HandleId`: what identifies a loaded or pending asset.
#[verifier::external_type_specification]
#[verifier::external_body]
pub struct ExHandleId(HandleId);

/// `bevy_render::render_resource::BindGroup`: resources wired to a binding
/// layout.
#[verifier::external_type_specification]
#[verifier::external_body]
pub struct ExBindGroup(BindGroup);

/// The texture the kernel reads the previous step from, once loaded.
#[derive(Clone, Copy)]
pub struct PrimaryEvolveTexture(pub Option<HandleId>);

/// The texture the kernel writes the next step to, once loaded.
#[derive(Clone, Copy)]
pub struct SecondaryEvolveTexture(pub Option<HandleId>);

/// The texture that is shown, once loaded.
#[derive(Clone, Copy)]
pub struct DisplayEvolveTexture(pub Option<HandleId>);

/// The current bind group; `None` until all three textures exist.
pub struct EvolveTextureBindGroup(pub Option<BindGroup>);

/// One texture wired to one binding of the layout.
pub struct TextureBinding {
    pub binding: u32,
    pub texture: HandleId,
}

impl Default for PrimaryEvolveTexture {
    fn default() -> (r: Self)
        ensures
            r.0 is None,
    {
        PrimaryEvolveTexture(None)
    }
}

impl Default for SecondaryEvolveTexture {
    fn default() -> (r: Self)
        ensures
            r.0 is None,
    {
        SecondaryEvolveTexture(None)
    }
}

impl Default for DisplayEvolveTexture {
    fn default() -> (r: Self)
        ensures
            r.0 is None,
    {
        DisplayEvolveTexture(None)
    }
}

impl Default for EvolveTextureBindGroup {
    fn default() -> (r: Self)
        ensures
            r.0 is None,
    {
        EvolveTextureBindGroup(None)
    }
}

/// The textures to bind, by binding: the primary texture at 0, the
/// secondary at 1 and the display texture at 2. `None` unless all three
/// slots are populated.
pub open spec fn texture_bindings(
    primary: Option<HandleId>,
    secondary: Option<HandleId>,
    display: Option<HandleId>,
) -> Option<Seq<TextureBinding>> {
    if primary is Some && secondary is Some && display is Some {
        Some(
            seq![
                TextureBinding { binding: 0, texture: primary->0 },
                TextureBinding { binding: 1, texture: secondary->0 },
                TextureBinding { binding: 2, texture: display->0 },
            ],
        )
    } else {
        None
    }
}

/// Whether all three slots are populated.
pub open spec fn slots_populated(
    primary: Option<HandleId>,
    secondary: Option<HandleId>,
    display: Option<HandleId>,
) -> bool {
    primary is Some && secondary is Some && display is Some
}

/// The textures to bind on this tick, if any: `None` unless all three
/// slots are populated.
pub fn queue_bind_group(
    primary: &PrimaryEvolveTexture,
    secondary: &SecondaryEvolveTexture,
    display: &DisplayEvolveTexture,
) -> (r: Option<Vec<TextureBinding>>)
    ensures
        r is Some <==> primary.0 is Some && secondary.0 is Some && display.0 is Some,
        match r {
            Some(bindings) => texture_bindings(primary.0, secondary.0, display.0) == Some(
                bindings@,
            ),
            None => texture_bindings(primary.0, secondary.0, display.0) is None,
        },
{
    match (primary.0, secondary.0, display.0) {
        (Some(first), Some(second), Some(third)) => {
            let mut bindings: Vec<TextureBinding> = Vec::new();
            bindings.push(TextureBinding { binding: 0, texture: first });
            bindings.push(TextureBinding { binding: 1, texture: second });
            bindings.push(TextureBinding { binding: 2, texture: third });
            assert(bindings@ =~= texture_bindings(primary.0, secondary.0, display.0)->0);
            Some(bindings)
        },
        _ => None,
    }
}

/// The textures to bind on this tick, given for each slot whether its
/// texture has been prepared on the device. `None` unless all three slots
/// are populated and all three textures prepared: a texture that is not
/// there yet is no error, the tick is skipped.
pub fn queue_prepared_bind_group(
    primary: &PrimaryEvolveTexture,
    secondary: &SecondaryEvolveTexture,
    display: &DisplayEvolveTexture,
    primary_prepared: bool,
    secondary_prepared: bool,
    display_prepared: bool,
) -> (r: Option<Vec<TextureBinding>>)
    ensures
        r is Some <==> slots_populated(primary.0, secondary.0, display.0) && primary_prepared
            && secondary_prepared && display_prepared,
        r matches Some(bindings) ==> texture_bindings(primary.0, secondary.0, display.0) == Some(
            bindings@,
        ),
{
    if primary_prepared && secondary_prepared && display_prepared {
        queue_bind_group(primary, secondary, display)
    } else {
        None
    }
}

/// Drops the stored bind group once a slot is empty, so that a bind group
/// is stored only while all three slots are populated; leaves it as it is
/// otherwise.
pub fn retain_bind_group(
    current: &mut EvolveTextureBindGroup,
    primary: &PrimaryEvolveTexture,
    secondary: &SecondaryEvolveTexture,
    display: &DisplayEvolveTexture,
)
    ensures
        !slots_populated(primary.0, secondary.0, display.0) ==> final(current).0 is None,
        slots_populated(primary.0, secondary.0, display.0) ==> *final(current) == *old(current),
{
    if primary.0.is_none() || secondary.0.is_none() || display.0.is_none() {
        current.0 = None;
    }
}

/// Every texture is wired to a binding that the layout declares at the
/// same position.
pub proof fn lemma_bindings_match_layout(
    primary: Option<HandleId>,
    secondary: Option<HandleId>,
    display: Option<HandleId>,
    i: int,
)
    requires
        texture_bindings(primary, secondary, display) is Some,
        0 <= i < 3,
    ensures
        texture_bindings(primary, secondary, display)->0.len() == layout_entries().len(),
        texture_bindings(primary, secondary, display)->0[i].binding == layout_entries()[i].binding,
{
}

} // verus!
