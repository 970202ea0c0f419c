//! Resolution of each material's texture slots into load or synthesis plans.
use vstd::prelude::*;
use crate::texture::{PlaceholderSpec, TextureFormat};

verus! {

/// Width and height of a synthesized diffuse texture.
pub const PLACEHOLDER_SIZE: u32 = 128;

/// The texture slots of one material, as the material file declares them.
#[derive(Clone, Debug, PartialEq, Eq)]
pub struct MaterialDecl {
    pub name: String,
    /// File of the diffuse texture.
    pub diffuse_texture: Option<String>,
    /// Constant diffuse colour, in 8-bit channels.
    pub diffuse: Option<[u8; 3]>,
    /// Normal-map field, a prefix and the file name separated by a space.
    pub normal_texture: Option<String>,
}

/// Where a diffuse texture comes from.
#[derive(Clone, Debug, PartialEq, Eq)]
pub enum TextureSource {
    FileRef(String),
    ConstantColor([u8; 3]),
    Missing,
}

/// How to obtain the diffuse texture of a material.
#[derive(Clone, Debug, PartialEq, Eq)]
pub enum DiffusePlan {
    /// Decode this file.
    Load(String),
    /// Synthesize this texture.
    Generate(PlaceholderSpec),
}

/// How to obtain the normal map of a material.
#[derive(Clone, Debug, PartialEq, Eq)]
pub enum NormalPlan {
    /// Decode this file.
    Load(String),
    /// Synthesize a flat map of the diffuse texture's size.
    MatchDiffuse,
}

/// The plan for one material of the model.
#[derive(Clone, Debug, PartialEq, Eq)]
pub struct MaterialPlan {
    pub name: String,
    pub diffuse: DiffusePlan,
    pub normal: NormalPlan,
}

/// Why a material list cannot be used.
#[derive(Clone, Copy, Debug, PartialEq, Eq)]
pub enum MaterialError {
    /// The normal-map field of this material has no space before its file name.
    MalformedNormalTexture(usize),
}

/// Opaque black.
pub open spec fn black() -> [u8; 4] {
    [0u8, 0u8, 0u8, 255u8]
}

/// A flat diffuse texture of one colour.
pub open spec fn flat_diffuse(c: [u8; 3]) -> PlaceholderSpec {
    PlaceholderSpec {
        width: PLACEHOLDER_SIZE,
        height: PLACEHOLDER_SIZE,
        checkerboard: false,
        color: [c[0], c[1], c[2], 255u8],
        format: TextureFormat::Rgba8UnormSrgb,
    }
}

/// The checkerboard that stands for a missing diffuse texture.
pub open spec fn checker_diffuse() -> PlaceholderSpec {
    PlaceholderSpec {
        width: PLACEHOLDER_SIZE,
        height: PLACEHOLDER_SIZE,
        checkerboard: true,
        color: black(),
        format: TextureFormat::Rgba8UnormSrgb,
    }
}

/// The flat normal map that stands for a missing one.
pub open spec fn flat_normal(width: u32, height: u32) -> PlaceholderSpec {
    PlaceholderSpec {
        width,
        height,
        checkerboard: false,
        color: black(),
        format: TextureFormat::Rgba8Unorm,
    }
}

/// `i` is the position of the last space of `s`.
pub open spec fn is_last_space(s: Seq<char>, i: int) -> bool {
    &&& 0 <= i < s.len()
    &&& s[i] == ' '
    &&& forall|j: int| i < j < s.len() ==> s[j] != ' '
}

/// What follows the last space of `s`, if it has one.
pub open spec fn after_last_space(s: Seq<char>) -> Option<Seq<char>> {
    if exists|i: int| is_last_space(s, i) {
        let i = choose|i: int| is_last_space(s, i);
        Some(s.subrange(i + 1, s.len() as int))
    } else {
        None
    }
}

/// The diffuse plan that a material's declaration calls for.
pub open spec fn diffuse_plan_fits(p: DiffusePlan, d: MaterialDecl) -> bool {
    match d.diffuse_texture {
        Some(f) => p matches DiffusePlan::Load(g) && g@ == f@,
        None => match d.diffuse {
            Some(c) => p == DiffusePlan::Generate(flat_diffuse(c)),
            None => p == DiffusePlan::Generate(checker_diffuse()),
        },
    }
}

/// Whether a material's normal-map field names a file.
pub open spec fn normal_field_ok(d: MaterialDecl) -> bool {
    match d.normal_texture {
        Some(f) => after_last_space(f@) is Some,
        None => true,
    }
}

/// The normal plan that a material's declaration calls for.
pub open spec fn normal_plan_fits(p: NormalPlan, d: MaterialDecl) -> bool {
    match d.normal_texture {
        Some(f) => p matches NormalPlan::Load(g) && after_last_space(f@) == Some(g@),
        None => p is MatchDiffuse,
    }
}

/// The whole plan that a material's declaration calls for.
pub open spec fn plan_fits(p: MaterialPlan, d: MaterialDecl) -> bool {
    &&& p.name@ == d.name@
    &&& diffuse_plan_fits(p.diffuse, d)
    &&& normal_plan_fits(p.normal, d)
}

/// The one material that stands in for an empty material list.
pub open spec fn is_fallback_plan(p: MaterialPlan) -> bool {
    &&& p.name@ == "Placeholder"@
    &&& p.diffuse == DiffusePlan::Generate(checker_diffuse())
    &&& p.normal is MatchDiffuse
}

/// The flat normal map that goes with a diffuse texture of the given size.
pub fn normal_placeholder(diffuse_width: u32, diffuse_height: u32) -> (r: PlaceholderSpec)
    ensures
        r == flat_normal(diffuse_width, diffuse_height),
        r.width == diffuse_width,
        r.height == diffuse_height,
{
    PlaceholderSpec {
        width: diffuse_width,
        height: diffuse_height,
        checkerboard: false,
        color: [0u8, 0u8, 0u8, 255u8],
        format: TextureFormat::Rgba8Unorm,
    }
}

/// The file name in a normal-map field: what follows its last space.
pub fn normal_map_name(field: &str) -> (r: Option<String>)
    ensures
        match r {
            Some(n) => after_last_space(field@) == Some(n@),
            None => after_last_space(field@) is None,
        },
{
    let len = field.unicode_len();
    let mut i: usize = len;
    while i > 0
        invariant
            i <= len,
            len == field@.len(),
            forall|j: int| i <= j < len ==> field@[j] != ' ',
        decreases i,
    {
        if field.get_char(i - 1) == ' ' {
            let rest = field.substring_char(i, len);
            proof {
                assert(is_last_space(field@, i - 1));
                let k = choose|k: int| is_last_space(field@, k);
                if k < i - 1 {
                    assert(field@[i - 1] != ' ');
                }
                if k > i - 1 {
                    assert(field@[k] != ' ');
                }
                assert(k == i - 1);
            }
            return Some(String::from_str(rest));
        }
        i = i - 1;
    }
    proof {
        assert forall|k: int| !is_last_space(field@, k) by {
            if 0 <= k < len {
                assert(field@[k] != ' ');
            }
        }
    }
    None
}

/// Classifies where a material's diffuse texture comes from.
pub fn diffuse_source(d: &MaterialDecl) -> (r: TextureSource)
    ensures
        match d.diffuse_texture {
            Some(f) => r matches TextureSource::FileRef(g) && g@ == f@,
            None => match d.diffuse {
                Some(c) => r == TextureSource::ConstantColor(c),
                None => r is Missing,
            },
        },
{
    match &d.diffuse_texture {
        Some(f) => TextureSource::FileRef(f.clone()),
        None => match d.diffuse {
            Some(c) => TextureSource::ConstantColor(c),
            None => TextureSource::Missing,
        },
    }
}

/// The diffuse plan for a texture source: decode the file, or synthesize a flat
/// texture of the constant colour, or a checkerboard where there is neither.
pub fn diffuse_plan(s: TextureSource) -> (r: DiffusePlan)
    ensures
        match s {
            TextureSource::FileRef(f) => r matches DiffusePlan::Load(g) && g@ == f@,
            TextureSource::ConstantColor(c) => r == DiffusePlan::Generate(flat_diffuse(c)),
            TextureSource::Missing => r == DiffusePlan::Generate(checker_diffuse()),
        },
{
    match s {
        TextureSource::FileRef(f) => DiffusePlan::Load(f),
        TextureSource::ConstantColor(c) => DiffusePlan::Generate(
            PlaceholderSpec {
                width: PLACEHOLDER_SIZE,
                height: PLACEHOLDER_SIZE,
                checkerboard: false,
                color: [c[0], c[1], c[2], 255u8],
                format: TextureFormat::Rgba8UnormSrgb,
            },
        ),
        TextureSource::Missing => DiffusePlan::Generate(checker_spec()),
    }
}

fn checker_spec() -> (r: PlaceholderSpec)
    ensures
        r == checker_diffuse(),
{
    PlaceholderSpec {
        width: PLACEHOLDER_SIZE,
        height: PLACEHOLDER_SIZE,
        checkerboard: true,
        color: [0u8, 0u8, 0u8, 255u8],
        format: TextureFormat::Rgba8UnormSrgb,
    }
}

/// The normal plan of a material: decode the file its field names, or match the
/// diffuse texture with a flat map where the field is absent.
pub fn normal_plan(d: &MaterialDecl) -> (r: Option<NormalPlan>)
    ensures
        r is Some <==> normal_field_ok(*d),
        r matches Some(p) ==> normal_plan_fits(p, *d),
{
    match &d.normal_texture {
        Some(f) => match normal_map_name(f.as_str()) {
            Some(n) => Some(NormalPlan::Load(n)),
            None => None,
        },
        None => Some(NormalPlan::MatchDiffuse),
    }
}

/// Plans every material of a model, in order. An empty list yields the single
/// fallback material; a normal-map field without a space is an error.
pub fn plan_materials(decls: &Vec<MaterialDecl>) -> (r: Result<Vec<MaterialPlan>, MaterialError>)
    ensures
        match r {
            Ok(plans) => {
                &&& forall|i: int| 0 <= i < decls.len() ==> normal_field_ok(#[trigger] decls@[i])
                &&& decls.len() == 0 ==> plans.len() == 1 && is_fallback_plan(plans@[0])
                &&& decls.len() > 0 ==> plans.len() == decls.len()
                &&& forall|i: int| 0 <= i < decls.len() ==> plan_fits(#[trigger] plans@[i], decls@[i])
            },
            Err(MaterialError::MalformedNormalTexture(k)) => {
                &&& k < decls.len()
                &&& !normal_field_ok(decls@[k as int])
                &&& forall|i: int| 0 <= i < k ==> normal_field_ok(#[trigger] decls@[i])
            },
        },
{
    let mut plans: Vec<MaterialPlan> = Vec::new();
    let mut i: usize = 0;
    while i < decls.len()
        invariant
            i <= decls.len(),
            plans.len() == i,
            forall|j: int| 0 <= j < i ==> normal_field_ok(#[trigger] decls@[j]),
            forall|j: int| 0 <= j < i ==> plan_fits(#[trigger] plans@[j], decls@[j]),
        decreases decls.len() - i,
    {
        let d = &decls[i];
        let normal = match normal_plan(d) {
            Some(n) => n,
            None => {
                return Err(MaterialError::MalformedNormalTexture(i));
            },
        };
        let diffuse = diffuse_plan(diffuse_source(d));
        plans.push(MaterialPlan { name: d.name.clone(), diffuse, normal });
        i = i + 1;
    }
    if decls.len() == 0 {
        plans.push(
            MaterialPlan {
                name: String::from_str("Placeholder"),
                diffuse: DiffusePlan::Generate(checker_spec()),
                normal: NormalPlan::MatchDiffuse,
            },
        );
    }
    Ok(plans)
}

/// Whether a file name ends in ".tga".
pub open spec fn has_tga_extension(name: Seq<char>) -> bool {
    name.len() >= 4 && name.subrange(name.len() - 4, name.len() as int) == ".tga"@
}

/// Whether a texture file needs the explicit TGA decoder: its name ends in ".tga".
pub fn is_tga_file(name: &str) -> (r: bool)
    ensures
        r == has_tga_extension(name@),
{
    proof {
        reveal_strlit(".tga");
    }
    let len = name.unicode_len();
    if len < 4 {
        return false;
    }
    let r = name.get_char(len - 4) == '.' && name.get_char(len - 3) == 't' && name.get_char(len - 2)
        == 'g' && name.get_char(len - 1) == 'a';
    proof {
        if r {
            assert(name@.subrange(len - 4, len as int) =~= ".tga"@);
        } else {
            assert(name@.subrange(len - 4, len as int)[0] == name@[len - 4]);
            assert(name@.subrange(len - 4, len as int)[1] == name@[len - 3]);
            assert(name@.subrange(len - 4, len as int)[2] == name@[len - 2]);
            assert(name@.subrange(len - 4, len as int)[3] == name@[len - 1]);
        }
    }
    r
}

} // verus!
