use vstd::prelude::*;
use vstd::string::StringExecFns;

verus! {

/// Returns the path of the native virtual-memory-manager library inside
/// `dir`, the directory that holds the backend's shared libraries.
///
/// Distributing and unpacking those libraries is a packaging concern and is
/// left to the embedding application; this function only forms the path that
/// `Dma::new` expects for such a directory.
pub fn get_vmm_dll_path(dir: &str) -> (r: String)
    ensures
        r@ == dir@ + "/vmm.dll"@,
{
    let mut path = String::from_str(dir);
    path.append("/vmm.dll");
    path
}

} // verus!
