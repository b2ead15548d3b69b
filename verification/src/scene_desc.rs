use vstd::prelude::*;

use crate::bvh::SplitMethod;
use crate::text::same_text;

verus! {

/// The shape of a JSON value in a scene description.
#[derive(Debug, Clone, Copy, PartialEq, Eq, Structural)]
pub enum JsonShape {
    Null,
    Bool,
    Number,
    String,
    Array,
    Object,
}

/// Whether `keys` holds the text `name`.
pub open spec fn holds_key(keys: Seq<String>, name: Seq<char>) -> bool {
    exists|i: int| 0 <= i < keys.len() && #[trigger] keys[i]@ == name
}

/// Whether `keys` holds the text `name`.
pub fn has_key(keys: &Vec<String>, name: &str) -> (r: bool)
    ensures
        r == holds_key(keys@, name@),
{
    let mut i: usize = 0;
    while i < keys.len()
        invariant
            i <= keys@.len(),
            forall|j: int| 0 <= j < i ==> keys@[j]@ != name@,
        decreases keys@.len() - i,
    {
        if same_text(keys[i].as_str(), name) {
            return true;
        }
        i = i + 1;
    }
    false
}

// ---------------------------------------------------------------- scene file

/// The entries a scene description may hold at its top level.
pub open spec fn spec_is_toplevel_field(key: Seq<char>) -> bool {
    ||| key == "integrator"@
    ||| key == "media"@
    ||| key == "materials"@
    ||| key == "surfaces"@
    ||| key == "accelerator"@
    ||| key == "camera"@
    ||| key == "sampler"@
    ||| key == "background"@
}

/// The names of the entries a scene description may hold at its top level.
pub open spec fn toplevel_fields() -> Set<Seq<char>> {
    set![
        "integrator"@,
        "media"@,
        "materials"@,
        "surfaces"@,
        "accelerator"@,
        "camera"@,
        "sampler"@,
        "background"@,
    ]
}

/// A key may stand at the top level of a scene description exactly when it
/// is one of the eight supported entries: integrator, media, materials,
/// surfaces, accelerator, camera, sampler and background.
pub proof fn law_toplevel_fields(key: Seq<char>)
    ensures
        spec_is_toplevel_field(key) <==> toplevel_fields().contains(key),
        toplevel_fields() == set![
            "integrator"@,
            "media"@,
            "materials"@,
            "surfaces"@,
            "accelerator"@,
            "camera"@,
            "sampler"@,
            "background"@,
        ],
        spec_is_toplevel_field(key) <==> (key == "integrator"@ || key == "media"@ || key
            == "materials"@ || key == "surfaces"@ || key == "accelerator"@ || key == "camera"@ || key
            == "sampler"@ || key == "background"@),
{
    reveal_strlit("integrator");
    reveal_strlit("media");
    reveal_strlit("materials");
    reveal_strlit("surfaces");
    reveal_strlit("accelerator");
    reveal_strlit("camera");
    reveal_strlit("sampler");
    reveal_strlit("background");
}

/// Whether `key` may stand at the top level of a scene description.
pub fn is_toplevel_field(key: &str) -> (r: bool)
    ensures
        r == spec_is_toplevel_field(key@),
        r <==> toplevel_fields().contains(key@),
{
    proof {
        law_toplevel_fields(key@);
    }
    same_text(key, "integrator") || same_text(key, "media") || same_text(key, "materials")
        || same_text(key, "surfaces") || same_text(key, "accelerator") || same_text(key, "camera")
        || same_text(key, "sampler") || same_text(key, "background")
}

/// The position of the first top-level entry that a scene description may
/// not hold, if any.
pub fn first_unsupported_field(keys: &Vec<String>) -> (r: Option<usize>)
    ensures
        r is None ==> forall|i: int| 0 <= i < keys@.len() ==> spec_is_toplevel_field(#[trigger] keys@[i]@),
        r is None <==> forall|i: int| 0 <= i < keys@.len() ==> toplevel_fields().contains(#[trigger] keys@[i]@),
        r matches Some(i) ==> !toplevel_fields().contains(keys@[i as int]@),
        r matches Some(i) ==> {
            &&& i < keys@.len()
            &&& !spec_is_toplevel_field(keys@[i as int]@)
            &&& forall|j: int| 0 <= j < i ==> spec_is_toplevel_field(#[trigger] keys@[j]@)
        },
{
    let mut i: usize = 0;
    while i < keys.len()
        invariant
            i <= keys@.len(),
            forall|j: int| 0 <= j < i ==> spec_is_toplevel_field(#[trigger] keys@[j]@),
            forall|j: int| 0 <= j < i ==> toplevel_fields().contains(#[trigger] keys@[j]@),
        decreases keys@.len() - i,
    {
        if !is_toplevel_field(keys[i].as_str()) {
            return Some(i);
        }
        i = i + 1;
    }
    None
}

/// The example scenes built into the renderer.
#[derive(Debug, Clone, Copy, PartialEq, Eq, Structural)]
pub enum ExampleScene {
    Sphere,
    SpherePlane,
    Steinbach,
    Shirley,
}

/// The example scene with number `n`: 0 to 3, in the order above.
pub fn example_scene(n: i32) -> (r: Option<ExampleScene>)
    ensures
        n == 0 ==> r == Some(ExampleScene::Sphere),
        n == 1 ==> r == Some(ExampleScene::SpherePlane),
        n == 2 ==> r == Some(ExampleScene::Steinbach),
        n == 3 ==> r == Some(ExampleScene::Shirley),
        (n < 0 || n > 3) ==> r is None,
{
    if n == 0 {
        Some(ExampleScene::Sphere)
    } else if n == 1 {
        Some(ExampleScene::SpherePlane)
    } else if n == 2 {
        Some(ExampleScene::Steinbach)
    } else if n == 3 {
        Some(ExampleScene::Shirley)
    } else {
        None
    }
}

/// The random stream used for pixel `(x, y)` of an image `width` pixels wide:
/// pixels are numbered row by row.
pub fn pixel_stream(x: usize, y: usize, width: usize) -> (r: u64)
    requires
        y * width + x <= usize::MAX,
    ensures
        r == y * width + x,
{
    proof {
        assert(0 <= y * width) by (nonlinear_arith);
    }
    let s = y * width + x;
    s as u64
}

/// Distinct pixels of an image draw from distinct random streams.
pub proof fn law_pixel_streams_distinct(width: int, x1: int, y1: int, x2: int, y2: int)
    requires
        0 <= x1 < width,
        0 <= x2 < width,
        0 <= y1,
        0 <= y2,
        x1 != x2 || y1 != y2,
    ensures
        y1 * width + x1 != y2 * width + x2,
{
    if y1 * width + x1 == y2 * width + x2 {
        crate::array2d::law_flat_index_injective(width, x1, y1, x2, y2);
    }
}

// ------------------------------------------------------------------ surfaces

/// The surface types a scene description may use.
#[derive(Debug, Clone, Copy, PartialEq, Eq, Structural)]
pub enum SurfaceKind {
    Sphere,
    Quad,
    Triangle,
    Mesh,
    Group,
}

/// The surface type that the name `s` designates, if any.
pub open spec fn spec_surface_kind(s: Seq<char>) -> Option<SurfaceKind> {
    if s == "sphere"@ {
        Some(SurfaceKind::Sphere)
    } else if s == "quad"@ {
        Some(SurfaceKind::Quad)
    } else if s == "triangle"@ {
        Some(SurfaceKind::Triangle)
    } else if s == "mesh"@ {
        Some(SurfaceKind::Mesh)
    } else if s == "group"@ {
        Some(SurfaceKind::Group)
    } else {
        None
    }
}

/// The surface type that the name `name` designates, if any.
pub fn surface_kind(name: &str) -> (r: Option<SurfaceKind>)
    ensures
        r == spec_surface_kind(name@),
        r == Some(SurfaceKind::Sphere) <==> name@ == "sphere"@,
        r == Some(SurfaceKind::Quad) <==> name@ == "quad"@,
        r == Some(SurfaceKind::Triangle) <==> name@ == "triangle"@,
        r == Some(SurfaceKind::Mesh) <==> name@ == "mesh"@,
        r == Some(SurfaceKind::Group) <==> name@ == "group"@,
{
    proof {
        law_surface_names(name@);
    }
    if same_text(name, "sphere") {
        Some(SurfaceKind::Sphere)
    } else if same_text(name, "quad") {
        Some(SurfaceKind::Quad)
    } else if same_text(name, "triangle") {
        Some(SurfaceKind::Triangle)
    } else if same_text(name, "mesh") {
        Some(SurfaceKind::Mesh)
    } else if same_text(name, "group") {
        Some(SurfaceKind::Group)
    } else {
        None
    }
}

/// Each surface type name stands for the surface of that name, and no other
/// name stands for a surface.
pub proof fn law_surface_names(s: Seq<char>)
    ensures
        spec_surface_kind(s) == Some(SurfaceKind::Sphere) <==> s == "sphere"@,
        spec_surface_kind(s) == Some(SurfaceKind::Quad) <==> s == "quad"@,
        spec_surface_kind(s) == Some(SurfaceKind::Triangle) <==> s == "triangle"@,
        spec_surface_kind(s) == Some(SurfaceKind::Mesh) <==> s == "mesh"@,
        spec_surface_kind(s) == Some(SurfaceKind::Group) <==> s == "group"@,
        spec_surface_kind(s) is None <==> (s != "sphere"@ && s != "quad"@ && s != "triangle"@ && s != "mesh"@ && s != "group"@),
{
    reveal_strlit("sphere");
    reveal_strlit("quad");
    reveal_strlit("triangle");
    reveal_strlit("mesh");
    reveal_strlit("group");
    assert("sphere"@.len() == 6);
    assert("quad"@.len() == 4);
    assert("triangle"@.len() == 8);
    assert("mesh"@.len() == 4);
    assert("group"@.len() == 5);
    assert("quad"@[0] != "mesh"@[0]);
    assert("quad"@ != "mesh"@);
}

/// What a scene description says about its accelerator: the `type` entry and
/// the `split_method` entry, which may be absent.
#[derive(Debug, Clone)]
pub struct AcceleratorSettings {
    pub kind: String,
    pub split_method: Option<SplitMethod>,
}

/// How the surfaces of a scene are grouped for intersection.
#[derive(Debug, Clone, Copy, PartialEq, Eq, Structural)]
pub enum SurfaceGrouping {
    /// Every surface is tested in turn.
    Linear,
    /// A bounding volume hierarchy built with the given split method.
    Bvh(SplitMethod),
}

/// Whether a description names an accelerator this renderer knows: `bbh`
/// is the only one; no accelerator entry at all is allowed too.
pub open spec fn names_known_accelerator(settings: Option<&AcceleratorSettings>) -> bool {
    settings matches Some(st) ==> st.kind@ == "bbh"@
}

/// The grouping a scene asks for: a linear list without an accelerator
/// entry, and a bounding volume hierarchy (split at the middle unless the
/// entry says otherwise) for the `bbh` type.
pub fn surface_grouping(settings: Option<&AcceleratorSettings>) -> (r: SurfaceGrouping)
    requires
        names_known_accelerator(settings),
    ensures
        settings is None ==> r == SurfaceGrouping::Linear,
        settings matches Some(st) ==> r == SurfaceGrouping::Bvh(
            match st.split_method {
                Some(m) => m,
                None => SplitMethod::Middle,
            },
        ),
{
    match settings {
        None => SurfaceGrouping::Linear,
        Some(st) => {
            let m = match st.split_method {
                Some(m) => m,
                None => SplitMethod::Middle,
            };
            SurfaceGrouping::Bvh(m)
        },
    }
}

// ----------------------------------------------------------------- materials

/// The material types a scene description may use.
#[derive(Debug, Clone, Copy, PartialEq, Eq, Structural)]
pub enum MaterialKind {
    Lambertian,
    Metal,
    Dielectric,
    DiffuseLight,
    FresnelBlend,
    Phong,
    BlinnPhong,
}

/// The material type that the name `s` designates, if any.
pub open spec fn spec_material_kind(s: Seq<char>) -> Option<MaterialKind> {
    if s == "lambertian"@ {
        Some(MaterialKind::Lambertian)
    } else if s == "metal"@ {
        Some(MaterialKind::Metal)
    } else if s == "dielectric"@ {
        Some(MaterialKind::Dielectric)
    } else if s == "diffuse_light"@ {
        Some(MaterialKind::DiffuseLight)
    } else if s == "fresnel_blend"@ {
        Some(MaterialKind::FresnelBlend)
    } else if s == "phong"@ {
        Some(MaterialKind::Phong)
    } else if s == "blinn_phong"@ {
        Some(MaterialKind::BlinnPhong)
    } else {
        None
    }
}

/// The material type that the name `name` designates, if any.
pub fn material_kind(name: &str) -> (r: Option<MaterialKind>)
    ensures
        r == spec_material_kind(name@),
        r == Some(MaterialKind::Lambertian) <==> name@ == "lambertian"@,
        r == Some(MaterialKind::Metal) <==> name@ == "metal"@,
        r == Some(MaterialKind::Dielectric) <==> name@ == "dielectric"@,
        r == Some(MaterialKind::DiffuseLight) <==> name@ == "diffuse_light"@,
        r == Some(MaterialKind::FresnelBlend) <==> name@ == "fresnel_blend"@,
        r == Some(MaterialKind::Phong) <==> name@ == "phong"@,
        r == Some(MaterialKind::BlinnPhong) <==> name@ == "blinn_phong"@,
{
    proof {
        law_material_names(name@);
    }
    if same_text(name, "lambertian") {
        Some(MaterialKind::Lambertian)
    } else if same_text(name, "metal") {
        Some(MaterialKind::Metal)
    } else if same_text(name, "dielectric") {
        Some(MaterialKind::Dielectric)
    } else if same_text(name, "diffuse_light") {
        Some(MaterialKind::DiffuseLight)
    } else if same_text(name, "fresnel_blend") {
        Some(MaterialKind::FresnelBlend)
    } else if same_text(name, "phong") {
        Some(MaterialKind::Phong)
    } else if same_text(name, "blinn_phong") {
        Some(MaterialKind::BlinnPhong)
    } else {
        None
    }
}

/// Of all the material types a scene may name, only diffuse lights emit
/// light; in particular lambertian, metal, dielectric, Fresnel blend, Phong
/// and Blinn-Phong materials do not.
pub proof fn law_only_diffuse_lights_emit(name: Seq<char>)
    requires
        spec_material_kind(name) is Some,
    ensures
        spec_material_kind(name)->0.spec_is_emissive() <==> name == "diffuse_light"@,
{
    reveal_strlit("lambertian");
    reveal_strlit("metal");
    reveal_strlit("dielectric");
    reveal_strlit("diffuse_light");
    reveal_strlit("fresnel_blend");
    reveal_strlit("phong");
    reveal_strlit("blinn_phong");
    assert("diffuse_light"@.len() == 13);
    assert("lambertian"@.len() == 10);
    assert("metal"@.len() == 5);
    assert("dielectric"@.len() == 10);
    assert("phong"@.len() == 5);
    assert("blinn_phong"@.len() == 11);
    assert("fresnel_blend"@[0] != "diffuse_light"@[0]);
    assert("fresnel_blend"@ != "diffuse_light"@);
}

/// A material kind emits light exactly when it is a diffuse light.
pub proof fn law_emissive_kind(k: MaterialKind)
    ensures
        k.spec_is_emissive() <==> k == MaterialKind::DiffuseLight,
        !MaterialKind::Metal.spec_is_emissive(),
{
}

/// Each material type name stands for the material of that name, and no
/// other name stands for a material.
pub proof fn law_material_names(s: Seq<char>)
    ensures
        spec_material_kind(s) == Some(MaterialKind::Lambertian) <==> s == "lambertian"@,
        spec_material_kind(s) == Some(MaterialKind::Metal) <==> s == "metal"@,
        spec_material_kind(s) == Some(MaterialKind::Dielectric) <==> s == "dielectric"@,
        spec_material_kind(s) == Some(MaterialKind::DiffuseLight) <==> s == "diffuse_light"@,
        spec_material_kind(s) == Some(MaterialKind::FresnelBlend) <==> s == "fresnel_blend"@,
        spec_material_kind(s) == Some(MaterialKind::Phong) <==> s == "phong"@,
        spec_material_kind(s) == Some(MaterialKind::BlinnPhong) <==> s == "blinn_phong"@,
        spec_material_kind(s) is None <==> (s != "lambertian"@ && s != "metal"@ && s != "dielectric"@ && s != "diffuse_light"@ && s != "fresnel_blend"@ && s != "phong"@ && s != "blinn_phong"@),
{
    reveal_strlit("lambertian");
    reveal_strlit("metal");
    reveal_strlit("dielectric");
    reveal_strlit("diffuse_light");
    reveal_strlit("fresnel_blend");
    reveal_strlit("phong");
    reveal_strlit("blinn_phong");
    assert("lambertian"@.len() == 10);
    assert("metal"@.len() == 5);
    assert("dielectric"@.len() == 10);
    assert("diffuse_light"@.len() == 13);
    assert("fresnel_blend"@.len() == 13);
    assert("phong"@.len() == 5);
    assert("blinn_phong"@.len() == 11);
    assert("lambertian"@[0] != "dielectric"@[0]);
    assert("lambertian"@ != "dielectric"@);
    assert("metal"@[0] != "phong"@[0]);
    assert("metal"@ != "phong"@);
    assert("diffuse_light"@[0] != "fresnel_blend"@[0]);
    assert("diffuse_light"@ != "fresnel_blend"@);
}

impl MaterialKind {
    /// Whether materials of this kind emit light: only diffuse lights do.
    pub open spec fn spec_is_emissive(self) -> bool {
        self == MaterialKind::DiffuseLight
    }

    /// Whether materials of this kind emit light; the scene samples the
    /// surfaces made of them as light sources.
    pub fn is_emissive(&self) -> (r: bool)
        ensures
            r == self.spec_is_emissive(),
            r <==> *self == MaterialKind::DiffuseLight,
    {
        match self {
            MaterialKind::DiffuseLight => true,
            _ => false,
        }
    }
}

/// How a description refers to a material.
#[derive(Debug, Clone, Copy, PartialEq, Eq, Structural)]
pub enum MaterialReference {
    /// By the name of a material declared earlier.
    ByName,
    /// By a material description written in place.
    Inline,
}

/// How an entry that stands for a material (the `material` of a surface, the
/// `refl` and `refr` of a Fresnel blend) refers to it: a string names a
/// declared material, anything else describes one in place.
pub fn material_reference(shape: JsonShape) -> (r: MaterialReference)
    ensures
        r == (if shape == JsonShape::String {
            MaterialReference::ByName
        } else {
            MaterialReference::Inline
        }),
{
    match shape {
        JsonShape::String => MaterialReference::ByName,
        _ => MaterialReference::Inline,
    }
}

// ------------------------------------------------------------------ textures

/// The texture types a scene description may use.
#[derive(Debug, Clone, Copy, PartialEq, Eq, Structural)]
pub enum TextureKind {
    Constant,
    Checker,
    Image,
    Marble,
}

/// The texture type that the name `s` designates, if any.
pub open spec fn spec_texture_kind_named(s: Seq<char>) -> Option<TextureKind> {
    if s == "constant"@ {
        Some(TextureKind::Constant)
    } else if s == "checker"@ {
        Some(TextureKind::Checker)
    } else if s == "marble"@ {
        Some(TextureKind::Marble)
    } else if s == "image"@ {
        Some(TextureKind::Image)
    } else {
        None
    }
}

/// Each texture type name stands for the texture of that name, and no other
/// name stands for a texture.
pub proof fn law_texture_names(s: Seq<char>)
    ensures
        spec_texture_kind_named(s) == Some(TextureKind::Constant) <==> s == "constant"@,
        spec_texture_kind_named(s) == Some(TextureKind::Checker) <==> s == "checker"@,
        spec_texture_kind_named(s) == Some(TextureKind::Marble) <==> s == "marble"@,
        spec_texture_kind_named(s) == Some(TextureKind::Image) <==> s == "image"@,
        spec_texture_kind_named(s) is None <==> (s != "constant"@ && s != "checker"@ && s != "marble"@ && s != "image"@),
{
    reveal_strlit("constant");
    reveal_strlit("checker");
    reveal_strlit("marble");
    reveal_strlit("image");
    assert("constant"@.len() == 8);
    assert("checker"@.len() == 7);
    assert("marble"@.len() == 6);
    assert("image"@.len() == 5);
}

/// The texture that an entry of shape `shape` (and, for an object, type
/// name `kind_name`) describes: a number or an array is a constant texture,
/// an object names its type, anything else describes no texture.
pub open spec fn spec_texture_kind(shape: JsonShape, kind_name: Option<Seq<char>>) -> Option<
    TextureKind,
> {
    match shape {
        JsonShape::Number => Some(TextureKind::Constant),
        JsonShape::Array => Some(TextureKind::Constant),
        JsonShape::Object => match kind_name {
            Some(t) => spec_texture_kind_named(t),
            None => None,
        },
        _ => None,
    }
}

/// The texture that an entry of shape `shape` with type name `kind_name`
/// describes, if any.
pub fn texture_kind(shape: JsonShape, kind_name: Option<&str>) -> (r: Option<TextureKind>)
    ensures
        r == spec_texture_kind(
            shape,
            match kind_name {
                Some(t) => Some(t@),
                None => None,
            },
        ),
{
    match shape {
        JsonShape::Number => Some(TextureKind::Constant),
        JsonShape::Array => Some(TextureKind::Constant),
        JsonShape::Object => match kind_name {
            Some(t) => {
                if same_text(t, "constant") {
                    Some(TextureKind::Constant)
                } else if same_text(t, "checker") {
                    Some(TextureKind::Checker)
                } else if same_text(t, "marble") {
                    Some(TextureKind::Marble)
                } else if same_text(t, "image") {
                    Some(TextureKind::Image)
                } else {
                    None
                }
            },
            None => None,
        },
        _ => None,
    }
}

// ---------------------------------------------------------------- transforms

/// The kinds of transform command a scene description may hold.
#[derive(Debug, Clone, Copy, PartialEq, Eq, Structural)]
pub enum TransformKind {
    /// An array of commands, applied in order.
    Chain,
    /// A camera-style frame from `from`, `at`, `to` and `up`.
    LookAt,
    /// Axes `x`, `y`, `z` and origin `o`.
    Frame,
    Translate,
    Scale,
    /// A rotation by `angle` degrees about `axis`.
    AxisAngle,
    /// An explicit matrix, which this renderer does not read.
    Matrix,
}

/// Which transform command an entry of shape `shape` with keys `keys`
/// stands for. An object is classified by the first of these groups of keys
/// that it holds: `from`/`at`/`to`/`up`, `o`/`x`/`y`/`z`, `translate`,
/// `scale`, `axis`/`angle`, `matrix`.
pub open spec fn spec_transform_kind(shape: JsonShape, keys: Seq<String>) -> Option<TransformKind> {
    if shape == JsonShape::Array {
        Some(TransformKind::Chain)
    } else if shape != JsonShape::Object {
        None
    } else if holds_key(keys, "from"@) || holds_key(keys, "at"@) || holds_key(keys, "to"@)
        || holds_key(keys, "up"@) {
        Some(TransformKind::LookAt)
    } else if holds_key(keys, "o"@) || holds_key(keys, "x"@) || holds_key(keys, "y"@) || holds_key(
        keys,
        "z"@,
    ) {
        Some(TransformKind::Frame)
    } else if holds_key(keys, "translate"@) {
        Some(TransformKind::Translate)
    } else if holds_key(keys, "scale"@) {
        Some(TransformKind::Scale)
    } else if holds_key(keys, "axis"@) || holds_key(keys, "angle"@) {
        Some(TransformKind::AxisAngle)
    } else if holds_key(keys, "matrix"@) {
        Some(TransformKind::Matrix)
    } else {
        None
    }
}

/// A number or an array describes a constant texture, an object describes
/// the texture its type names, and any other entry describes none.
pub proof fn law_texture_entries(shape: JsonShape, kind_name: Option<Seq<char>>)
    ensures
        shape == JsonShape::Number ==> spec_texture_kind(shape, kind_name) == Some(TextureKind::Constant),
        shape == JsonShape::Array ==> spec_texture_kind(shape, kind_name) == Some(TextureKind::Constant),
        shape == JsonShape::Object && kind_name == Some("checker"@) ==> spec_texture_kind(shape, kind_name)
            == Some(TextureKind::Checker),
        shape == JsonShape::Object && kind_name == Some("image"@) ==> spec_texture_kind(shape, kind_name)
            == Some(TextureKind::Image),
        shape == JsonShape::Object && kind_name == Some("marble"@) ==> spec_texture_kind(shape, kind_name)
            == Some(TextureKind::Marble),
        shape == JsonShape::Object && kind_name == Some("constant"@) ==> spec_texture_kind(shape, kind_name)
            == Some(TextureKind::Constant),
        shape == JsonShape::Object && kind_name is None ==> spec_texture_kind(shape, kind_name) is None,
        (shape == JsonShape::Null || shape == JsonShape::Bool || shape == JsonShape::String)
            ==> spec_texture_kind(shape, kind_name) is None,
{
    if let Some(t) = kind_name {
        law_texture_names(t);
    }
}

/// An array is a chain of transforms; an object holding `from`, `at`, `to`
/// or `up` is a look-at frame whatever else it holds; an object holding
/// none of the keys a transform command uses is no transform; neither is
/// an entry that is not an array or an object.
pub proof fn law_transform_entries(shape: JsonShape, keys: Seq<String>)
    ensures
        shape == JsonShape::Array ==> spec_transform_kind(shape, keys) == Some(TransformKind::Chain),
        shape != JsonShape::Array && shape != JsonShape::Object ==> spec_transform_kind(shape, keys) is None,
        shape == JsonShape::Object && (holds_key(keys, "from"@) || holds_key(keys, "at"@) || holds_key(
            keys,
            "to"@,
        ) || holds_key(keys, "up"@)) ==> spec_transform_kind(shape, keys) == Some(TransformKind::LookAt),
        shape == JsonShape::Object && spec_transform_kind(shape, keys) == Some(TransformKind::Translate)
            ==> holds_key(keys, "translate"@),
        shape == JsonShape::Object && spec_transform_kind(shape, keys) == Some(TransformKind::Scale)
            ==> holds_key(keys, "scale"@),
        shape == JsonShape::Object && spec_transform_kind(shape, keys) == Some(TransformKind::Matrix)
            ==> holds_key(keys, "matrix"@),
        shape == JsonShape::Object && spec_transform_kind(shape, keys) == Some(TransformKind::Frame)
            ==> (holds_key(keys, "o"@) || holds_key(keys, "x"@) || holds_key(keys, "y"@) || holds_key(
            keys,
            "z"@,
        )),
        shape == JsonShape::Object && spec_transform_kind(shape, keys) == Some(TransformKind::AxisAngle)
            ==> (holds_key(keys, "axis"@) || holds_key(keys, "angle"@)),
        shape == JsonShape::Object && keys.len() == 0 ==> spec_transform_kind(shape, keys) is None,
{
}

/// Which transform command an entry of shape `shape` with keys `keys`
/// stands for, if any.
pub fn transform_kind(shape: JsonShape, keys: &Vec<String>) -> (r: Option<TransformKind>)
    ensures
        r == spec_transform_kind(shape, keys@),
{
    if shape == JsonShape::Array {
        Some(TransformKind::Chain)
    } else if shape != JsonShape::Object {
        None
    } else if has_key(keys, "from") || has_key(keys, "at") || has_key(keys, "to") || has_key(
        keys,
        "up",
    ) {
        Some(TransformKind::LookAt)
    } else if has_key(keys, "o") || has_key(keys, "x") || has_key(keys, "y") || has_key(keys, "z") {
        Some(TransformKind::Frame)
    } else if has_key(keys, "translate") {
        Some(TransformKind::Translate)
    } else if has_key(keys, "scale") {
        Some(TransformKind::Scale)
    } else if has_key(keys, "axis") || has_key(keys, "angle") {
        Some(TransformKind::AxisAngle)
    } else if has_key(keys, "matrix") {
        Some(TransformKind::Matrix)
    } else {
        None
    }
}

} // verus!
