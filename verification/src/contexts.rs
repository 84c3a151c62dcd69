//! The context directory: which contexts the local kubeconfig offers, and
//! which of them is current.

use vstd::prelude::*;

verus! {

/// What the client reads of a kubeconfig file: the names of its contexts,
/// in file order, and the name of the current one if the file sets it.
#[derive(Debug, Clone)]
pub struct Kubeconfig {
    pub contexts: Vec<String>,
    pub current_context: Option<String>,
}

/// The texts of a list of names, in order.
pub open spec fn name_texts(names: Seq<String>) -> Seq<Seq<char>> {
    names.map_values(|name: String| name@)
}

impl Kubeconfig {
    /// The names of all contexts, in file order.
    pub open spec fn context_names(self) -> Seq<Seq<char>> {
        name_texts(self.contexts@)
    }

    /// Whether the file has a context called `name`.
    pub open spec fn offers(self, name: Seq<char>) -> bool {
        self.context_names().contains(name)
    }

    /// Whether the file has a context called `name`.
    pub fn has_context(&self, name: &str) -> (found: bool)
        ensures
            found == self.offers(name@),
    {
        let wanted = String::from_str(name);
        let mut i: usize = 0;
        while i < self.contexts.len()
            invariant
                i <= self.contexts.len(),
                wanted@ == name@,
                forall|k: int| 0 <= k < i ==> self.contexts@[k]@ != name@,
            decreases self.contexts.len() - i,
        {
            if self.contexts[i] == wanted {
                assert(self.context_names()[i as int] == name@);
                return true;
            }
            i += 1;
        }
        false
    }
}

} // verus!
