use vstd::prelude::*;
verus! {
/// The closed catalog of the 64 fixed lump slots, in ordinal order.
///
/// Reserved slots are listed too: they are valid directory indices with no
/// assigned meaning, and a walk over the whole directory must cover them.
#[allow(non_camel_case_types)]
#[derive(Clone, Copy, Debug, PartialEq, Eq, Structural)]
pub enum LumpType {
    ENTITIES,
    PLANES,
    TEXTURE_DATA,
    VERTICES,
    VISIBILITY,
    NODES,
    TEXTURE_INFO,
    FACES,
    LIGHTING,
    OCCLUSION,
    LEAVES,
    FACE_IDS,
    EDGES,
    SURFEDGES,
    MODELS,
    WORLD_LIGHTS,
    LEAF_FACES,
    LEAF_BRUSHES,
    BRUSHES,
    BRUSH_SIDES,
    AREAS,
    AREA_PORTALS,
    UNUSED_22,
    UNUSED_23,
    UNUSED_24,
    UNUSED_25,
    DISPLACEMENT_INFO,
    ORIGINAL_FACES,
    PHYSICS_DISPLACEMENT,
    PHYSICS_COLLIDE,
    VERTEX_NORMALS,
    VERTEX_NORMAL_INDICES,
    DISPLACEMENT_LIGHTMAP_ALPHAS,
    DISPLACEMENT_VERTICES,
    DISPLACEMENT_LIGHTMAP_SAMPLE_POSITIONS,
    GAME_LUMP,
    LEAF_WATER_DATA,
    PRIMITIVES,
    PRIMITIVE_VERTICES,
    PRIMITIVE_INDICES,
    PAKFILE,
    CLIP_PORTAL_VERTICES,
    CUBEMAPS,
    TEXTURE_DATA_STRING_DATA,
    TEXTURE_DATA_STRING_TABLE,
    OVERLAYS,
    LEAF_MIN_DIST_TO_WATER,
    FACE_MACRO_TEXTURE_INFO,
    DISPLACEMENT_TRIS,
    PHYSICS_COLLIDE_SURFACE,
    WATER_OVERLAYS,
    LEAF_AMBIENT_INDEX_HDR,
    LEAF_AMBIENT_INDEX,
    LIGHTING_HDR,
    WORLD_LIGHTS_HDR,
    LEAF_AMBIENT_LIGHTING_HDR,
    LEAF_AMBIENT_LIGHTING,
    XZIP_PAKFILE,
    FACES_HDR,
    MAP_FLAGS,
    OVERLAY_FADES,
    UNUSED_61,
    PHYSICS_LEVEL,
    UNUSED_63,
}

/// The directory ordinal of a lump slot.
pub open spec fn lump_ordinal_spec(t: LumpType) -> u32 {
    match t {
        LumpType::ENTITIES => 0,
        LumpType::PLANES => 1,
        LumpType::TEXTURE_DATA => 2,
        LumpType::VERTICES => 3,
        LumpType::VISIBILITY => 4,
        LumpType::NODES => 5,
        LumpType::TEXTURE_INFO => 6,
        LumpType::FACES => 7,
        LumpType::LIGHTING => 8,
        LumpType::OCCLUSION => 9,
        LumpType::LEAVES => 10,
        LumpType::FACE_IDS => 11,
        LumpType::EDGES => 12,
        LumpType::SURFEDGES => 13,
        LumpType::MODELS => 14,
        LumpType::WORLD_LIGHTS => 15,
        LumpType::LEAF_FACES => 16,
        LumpType::LEAF_BRUSHES => 17,
        LumpType::BRUSHES => 18,
        LumpType::BRUSH_SIDES => 19,
        LumpType::AREAS => 20,
        LumpType::AREA_PORTALS => 21,
        LumpType::UNUSED_22 => 22,
        LumpType::UNUSED_23 => 23,
        LumpType::UNUSED_24 => 24,
        LumpType::UNUSED_25 => 25,
        LumpType::DISPLACEMENT_INFO => 26,
        LumpType::ORIGINAL_FACES => 27,
        LumpType::PHYSICS_DISPLACEMENT => 28,
        LumpType::PHYSICS_COLLIDE => 29,
        LumpType::VERTEX_NORMALS => 30,
        LumpType::VERTEX_NORMAL_INDICES => 31,
        LumpType::DISPLACEMENT_LIGHTMAP_ALPHAS => 32,
        LumpType::DISPLACEMENT_VERTICES => 33,
        LumpType::DISPLACEMENT_LIGHTMAP_SAMPLE_POSITIONS => 34,
        LumpType::GAME_LUMP => 35,
        LumpType::LEAF_WATER_DATA => 36,
        LumpType::PRIMITIVES => 37,
        LumpType::PRIMITIVE_VERTICES => 38,
        LumpType::PRIMITIVE_INDICES => 39,
        LumpType::PAKFILE => 40,
        LumpType::CLIP_PORTAL_VERTICES => 41,
        LumpType::CUBEMAPS => 42,
        LumpType::TEXTURE_DATA_STRING_DATA => 43,
        LumpType::TEXTURE_DATA_STRING_TABLE => 44,
        LumpType::OVERLAYS => 45,
        LumpType::LEAF_MIN_DIST_TO_WATER => 46,
        LumpType::FACE_MACRO_TEXTURE_INFO => 47,
        LumpType::DISPLACEMENT_TRIS => 48,
        LumpType::PHYSICS_COLLIDE_SURFACE => 49,
        LumpType::WATER_OVERLAYS => 50,
        LumpType::LEAF_AMBIENT_INDEX_HDR => 51,
        LumpType::LEAF_AMBIENT_INDEX => 52,
        LumpType::LIGHTING_HDR => 53,
        LumpType::WORLD_LIGHTS_HDR => 54,
        LumpType::LEAF_AMBIENT_LIGHTING_HDR => 55,
        LumpType::LEAF_AMBIENT_LIGHTING => 56,
        LumpType::XZIP_PAKFILE => 57,
        LumpType::FACES_HDR => 58,
        LumpType::MAP_FLAGS => 59,
        LumpType::OVERLAY_FADES => 60,
        LumpType::UNUSED_61 => 61,
        LumpType::PHYSICS_LEVEL => 62,
        LumpType::UNUSED_63 => 63,
    }
}

/// A reserved slot has an ordinal but no assigned name.
pub open spec fn lump_is_reserved_spec(t: LumpType) -> bool {
    t == LumpType::UNUSED_22 || t == LumpType::UNUSED_23 || t == LumpType::UNUSED_24 || t == LumpType::UNUSED_25 || t == LumpType::UNUSED_61 || t == LumpType::UNUSED_63
}

/// The directory ordinal of a lump slot; always below the fixed slot count.
pub fn lump_ordinal(t: LumpType) -> (r: u32)
    ensures
        r == lump_ordinal_spec(t),
        r < 64,
{
    match t {
        LumpType::ENTITIES => 0,
        LumpType::PLANES => 1,
        LumpType::TEXTURE_DATA => 2,
        LumpType::VERTICES => 3,
        LumpType::VISIBILITY => 4,
        LumpType::NODES => 5,
        LumpType::TEXTURE_INFO => 6,
        LumpType::FACES => 7,
        LumpType::LIGHTING => 8,
        LumpType::OCCLUSION => 9,
        LumpType::LEAVES => 10,
        LumpType::FACE_IDS => 11,
        LumpType::EDGES => 12,
        LumpType::SURFEDGES => 13,
        LumpType::MODELS => 14,
        LumpType::WORLD_LIGHTS => 15,
        LumpType::LEAF_FACES => 16,
        LumpType::LEAF_BRUSHES => 17,
        LumpType::BRUSHES => 18,
        LumpType::BRUSH_SIDES => 19,
        LumpType::AREAS => 20,
        LumpType::AREA_PORTALS => 21,
        LumpType::UNUSED_22 => 22,
        LumpType::UNUSED_23 => 23,
        LumpType::UNUSED_24 => 24,
        LumpType::UNUSED_25 => 25,
        LumpType::DISPLACEMENT_INFO => 26,
        LumpType::ORIGINAL_FACES => 27,
        LumpType::PHYSICS_DISPLACEMENT => 28,
        LumpType::PHYSICS_COLLIDE => 29,
        LumpType::VERTEX_NORMALS => 30,
        LumpType::VERTEX_NORMAL_INDICES => 31,
        LumpType::DISPLACEMENT_LIGHTMAP_ALPHAS => 32,
        LumpType::DISPLACEMENT_VERTICES => 33,
        LumpType::DISPLACEMENT_LIGHTMAP_SAMPLE_POSITIONS => 34,
        LumpType::GAME_LUMP => 35,
        LumpType::LEAF_WATER_DATA => 36,
        LumpType::PRIMITIVES => 37,
        LumpType::PRIMITIVE_VERTICES => 38,
        LumpType::PRIMITIVE_INDICES => 39,
        LumpType::PAKFILE => 40,
        LumpType::CLIP_PORTAL_VERTICES => 41,
        LumpType::CUBEMAPS => 42,
        LumpType::TEXTURE_DATA_STRING_DATA => 43,
        LumpType::TEXTURE_DATA_STRING_TABLE => 44,
        LumpType::OVERLAYS => 45,
        LumpType::LEAF_MIN_DIST_TO_WATER => 46,
        LumpType::FACE_MACRO_TEXTURE_INFO => 47,
        LumpType::DISPLACEMENT_TRIS => 48,
        LumpType::PHYSICS_COLLIDE_SURFACE => 49,
        LumpType::WATER_OVERLAYS => 50,
        LumpType::LEAF_AMBIENT_INDEX_HDR => 51,
        LumpType::LEAF_AMBIENT_INDEX => 52,
        LumpType::LIGHTING_HDR => 53,
        LumpType::WORLD_LIGHTS_HDR => 54,
        LumpType::LEAF_AMBIENT_LIGHTING_HDR => 55,
        LumpType::LEAF_AMBIENT_LIGHTING => 56,
        LumpType::XZIP_PAKFILE => 57,
        LumpType::FACES_HDR => 58,
        LumpType::MAP_FLAGS => 59,
        LumpType::OVERLAY_FADES => 60,
        LumpType::UNUSED_61 => 61,
        LumpType::PHYSICS_LEVEL => 62,
        LumpType::UNUSED_63 => 63,
    }
}

/// The lump slot with the given ordinal, or `None` when the ordinal lies
/// outside the fixed directory range.
pub fn lump_from_ordinal(n: u32) -> (r: Option<LumpType>)
    ensures
        r is Some <==> n < 64,
        r matches Some(t) ==> lump_ordinal_spec(t) == n,
{
    match n {
        0 => Some(LumpType::ENTITIES),
        1 => Some(LumpType::PLANES),
        2 => Some(LumpType::TEXTURE_DATA),
        3 => Some(LumpType::VERTICES),
        4 => Some(LumpType::VISIBILITY),
        5 => Some(LumpType::NODES),
        6 => Some(LumpType::TEXTURE_INFO),
        7 => Some(LumpType::FACES),
        8 => Some(LumpType::LIGHTING),
        9 => Some(LumpType::OCCLUSION),
        10 => Some(LumpType::LEAVES),
        11 => Some(LumpType::FACE_IDS),
        12 => Some(LumpType::EDGES),
        13 => Some(LumpType::SURFEDGES),
        14 => Some(LumpType::MODELS),
        15 => Some(LumpType::WORLD_LIGHTS),
        16 => Some(LumpType::LEAF_FACES),
        17 => Some(LumpType::LEAF_BRUSHES),
        18 => Some(LumpType::BRUSHES),
        19 => Some(LumpType::BRUSH_SIDES),
        20 => Some(LumpType::AREAS),
        21 => Some(LumpType::AREA_PORTALS),
        22 => Some(LumpType::UNUSED_22),
        23 => Some(LumpType::UNUSED_23),
        24 => Some(LumpType::UNUSED_24),
        25 => Some(LumpType::UNUSED_25),
        26 => Some(LumpType::DISPLACEMENT_INFO),
        27 => Some(LumpType::ORIGINAL_FACES),
        28 => Some(LumpType::PHYSICS_DISPLACEMENT),
        29 => Some(LumpType::PHYSICS_COLLIDE),
        30 => Some(LumpType::VERTEX_NORMALS),
        31 => Some(LumpType::VERTEX_NORMAL_INDICES),
        32 => Some(LumpType::DISPLACEMENT_LIGHTMAP_ALPHAS),
        33 => Some(LumpType::DISPLACEMENT_VERTICES),
        34 => Some(LumpType::DISPLACEMENT_LIGHTMAP_SAMPLE_POSITIONS),
        35 => Some(LumpType::GAME_LUMP),
        36 => Some(LumpType::LEAF_WATER_DATA),
        37 => Some(LumpType::PRIMITIVES),
        38 => Some(LumpType::PRIMITIVE_VERTICES),
        39 => Some(LumpType::PRIMITIVE_INDICES),
        40 => Some(LumpType::PAKFILE),
        41 => Some(LumpType::CLIP_PORTAL_VERTICES),
        42 => Some(LumpType::CUBEMAPS),
        43 => Some(LumpType::TEXTURE_DATA_STRING_DATA),
        44 => Some(LumpType::TEXTURE_DATA_STRING_TABLE),
        45 => Some(LumpType::OVERLAYS),
        46 => Some(LumpType::LEAF_MIN_DIST_TO_WATER),
        47 => Some(LumpType::FACE_MACRO_TEXTURE_INFO),
        48 => Some(LumpType::DISPLACEMENT_TRIS),
        49 => Some(LumpType::PHYSICS_COLLIDE_SURFACE),
        50 => Some(LumpType::WATER_OVERLAYS),
        51 => Some(LumpType::LEAF_AMBIENT_INDEX_HDR),
        52 => Some(LumpType::LEAF_AMBIENT_INDEX),
        53 => Some(LumpType::LIGHTING_HDR),
        54 => Some(LumpType::WORLD_LIGHTS_HDR),
        55 => Some(LumpType::LEAF_AMBIENT_LIGHTING_HDR),
        56 => Some(LumpType::LEAF_AMBIENT_LIGHTING),
        57 => Some(LumpType::XZIP_PAKFILE),
        58 => Some(LumpType::FACES_HDR),
        59 => Some(LumpType::MAP_FLAGS),
        60 => Some(LumpType::OVERLAY_FADES),
        61 => Some(LumpType::UNUSED_61),
        62 => Some(LumpType::PHYSICS_LEVEL),
        63 => Some(LumpType::UNUSED_63),
        _ => None,
    }
}

/// Whether a slot is reserved, i.e. carries no assigned name.
pub fn lump_is_reserved(t: LumpType) -> (r: bool)
    ensures
        r == lump_is_reserved_spec(t),
{
    match t {
        LumpType::UNUSED_22 => true,
        LumpType::UNUSED_23 => true,
        LumpType::UNUSED_24 => true,
        LumpType::UNUSED_25 => true,
        LumpType::UNUSED_61 => true,
        LumpType::UNUSED_63 => true,
        _ => false,
    }
}

} // verus!
