use vstd::prelude::*;
use vstd::string::StringExecFns;

verus! {

/// Sub-directory of the asset directory that holds the meshes, materials and images.
pub open spec fn resource_dir_spec() -> Seq<char> {
    seq!['/', 'r', 'e', 's', '/']
}

/// Path of an asset file: `<out_dir>/res/<filename>`.
pub fn load_path(out_dir: &str, filename: &str) -> (r: String)
    ensures
        r@ == out_dir@ + resource_dir_spec() + filename@,
{
    let mut path = String::from_str(out_dir);
    path.append("/res/");
    proof {
        reveal_strlit("/res/");
    }
    path.append(filename);
    path
}

} // verus!
