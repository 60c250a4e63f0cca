use vstd::prelude::*;
use vstd::string::StringExecFns;

verus! {

/// The model name a manifest file's path components stand for: the walk
/// of the manifests directory yields paths whose last component is the
/// tag and whose second-to-last is the model, combined as `model:tag`.
/// Shorter paths name no model.
pub fn model_tag_of_components(components: &Vec<String>) -> (r: Option<String>)
    ensures
        components@.len() < 3 ==> r is None,
        components@.len() >= 3 ==> (r matches Some(t) && t@ == components@[components@.len() - 2]@
            + ":"@ + components@[components@.len() - 1]@),
{
    let n = components.len();
    if n < 3 {
        None
    } else {
        let mut t = components[n - 2].clone();
        t.append(":");
        t.append(components[n - 1].as_str());
        Some(t)
    }
}

} // verus!
