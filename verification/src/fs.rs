//! Where the assets of an application are found.
//!
//! Paths are text with `/` between their components, on every host. An
//! application that ships as a bundle finds its assets below the bundle's
//! resource directory; any other below a base directory or base address.

use vstd::prelude::*;
use vstd::string::{StrSliceExecFns, StringExecFns};

verus! {

/// `base` followed by `component`: a component that begins with `/` stands
/// for itself; otherwise a `/` is put between the two unless `base` is empty
/// or ends with one.
pub open spec fn joined(base: Seq<char>, component: Seq<char>) -> Seq<char> {
    if component.len() > 0 && component[0] == '/' {
        component
    } else if base.len() == 0 || base.last() == '/' {
        base + component
    } else {
        base + seq!['/'] + component
    }
}

/// `name` with every `/` replaced by `_`.
pub open spec fn flattened(name: Seq<char>) -> Seq<char> {
    Seq::new(name.len(), |i: int| if name[i] == '/' {
        '_'
    } else {
        name[i]
    })
}

/// The path of the compiled shader `name` of kind `suffix` below `bundle`.
pub open spec fn shader_path(bundle: Seq<char>, name: Seq<char>, suffix: Seq<char>) -> Seq<char> {
    bundle + "/shader-spirv/"@ + flattened(name) + "_"@ + suffix + ".spv"@
}

/// The path of the texture `name`: below the bundle's `assets` where there
/// is a bundle, else below the `assets` of the base path.
pub open spec fn texture_path(base_path: Seq<char>, bundle: Option<Seq<char>>, name: Seq<char>)
    -> Seq<char> {
    match bundle {
        Some(url) => url + "/assets/"@ + name,
        None => joined(joined(base_path, "assets"@), name),
    }
}

/// Joins a path and a component.
pub fn join(base: &str, component: &str) -> (r: String)
    ensures
        r@ == joined(base@, component@),
{
    let base_len = base.unicode_len();
    let component_len = component.unicode_len();
    if component_len > 0 && component.get_char(0) == '/' {
        String::from_str(component)
    } else if base_len == 0 || base.get_char(base_len - 1) == '/' {
        String::from_str(base).concat(component)
    } else {
        proof {
            reveal_strlit("/");
            assert("/"@ =~= seq!['/']);
        }
        String::from_str(base).concat("/").concat(component)
    }
}

/// Replaces every `/` of `name` by `_`.
pub fn flatten(name: &str) -> (r: String)
    ensures
        r@ == flattened(name@),
{
    let len = name.unicode_len();
    let mut out = String::new();
    let mut i: usize = 0;
    while i < len
        invariant
            len == name@.len(),
            i <= len,
            out@ == flattened(name@).subrange(0, i as int),
        decreases len - i,
    {
        if name.get_char(i) == '/' {
            proof {
                reveal_strlit("_");
                assert("_"@ =~= seq!['_']);
            }
            out.append("_");
        } else {
            out.append(name.substring_char(i, i + 1));
        }
        assert(out@ =~= flattened(name@).subrange(0, i + 1));
        i += 1;
    }
    assert(out@ =~= flattened(name@));
    out
}

/// The place an application's assets are resolved against.
#[derive(Clone, Debug, PartialEq, Eq)]
pub struct FileSystem {
    base_path: String,
    bundle_url: Option<String>,
}

/// The mathematical content of a `FileSystem`.
pub struct FileSystemModel {
    pub base_path: Seq<char>,
    pub bundle_url: Option<Seq<char>>,
}

impl View for FileSystem {
    type V = FileSystemModel;

    closed spec fn view(&self) -> FileSystemModel {
        FileSystemModel {
            base_path: self.base_path@,
            bundle_url: match self.bundle_url {
                Some(url) => Some(url@),
                None => None,
            },
        }
    }
}

impl FileSystemModel {
    /// The bundle's resource directory; empty where there is no bundle.
    pub open spec fn bundle(self) -> Seq<char> {
        match self.bundle_url {
            Some(url) => url,
            None => Seq::<char>::empty(),
        }
    }
}

impl FileSystem {
    /// The assets of an application without a bundle, below `base_path`.
    pub fn new(base_path: &str) -> (r: FileSystem)
        ensures
            r@.base_path == base_path@,
            r@.bundle_url is None,
    {
        FileSystem { base_path: String::from_str(base_path), bundle_url: None }
    }

    /// The assets of an application that ships as a bundle whose resources
    /// are at `bundle_url`.
    pub fn in_bundle(base_path: &str, bundle_url: &str) -> (r: FileSystem)
        ensures
            r@.base_path == base_path@,
            r@.bundle_url == Some(bundle_url@),
    {
        FileSystem {
            base_path: String::from_str(base_path),
            bundle_url: Some(String::from_str(bundle_url)),
        }
    }

    /// The bundle's resource directory; empty where there is no bundle.
    pub fn get_bundle_url(&self) -> (r: &str)
        ensures
            r@ == self@.bundle(),
    {
        match &self.bundle_url {
            Some(url) => url.as_str(),
            None => {
                proof {
                    reveal_strlit("");
                    assert(""@ =~= Seq::<char>::empty());
                }
                ""
            },
        }
    }

    /// The path of the compiled shader `name` of kind `suffix`.
    pub fn get_shader_path(&self, name: &str, suffix: &str) -> (r: String)
        ensures
            r@ == shader_path(self@.bundle(), name@, suffix@),
    {
        let flat = flatten(name);
        String::from_str(self.get_bundle_url()).concat("/shader-spirv/").concat(
            flat.as_str(),
        ).concat("_").concat(suffix).concat(".spv")
    }

    /// The path of the texture `name`.
    pub fn get_texture_file_path(&self, name: &str) -> (r: String)
        ensures
            r@ == texture_path(self@.base_path, self@.bundle_url, name@),
    {
        match &self.bundle_url {
            Some(url) => String::from_str(url.as_str()).concat("/assets/").concat(name),
            None => {
                let assets = join(self.base_path.as_str(), "assets");
                join(assets.as_str(), name)
            },
        }
    }
}

/// The path of the texture `name` of an application without a bundle whose
/// root directory is `base_dir`.
pub fn get_texture_file_path(base_dir: &str, name: &str) -> (r: String)
    ensures
        r@ == texture_path(base_dir@, None, name@),
{
    let file_system = FileSystem::new(base_dir);
    file_system.get_texture_file_path(name)
}

} // verus!
