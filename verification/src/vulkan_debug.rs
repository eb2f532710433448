//! Whether the validation layers the renderer asks for are installed.

use vstd::prelude::*;
use crate::error::RendererError;

verus! {

/// Whether an installed layer is `needed`, compared as text. A layer
/// whose name could not be read (`None`) matches nothing.
pub open spec fn layer_name_matches(layer: Option<String>, needed: String) -> bool {
    match layer {
        Some(name) => name@ == needed@,
        None => false,
    }
}

/// Whether the installed layers include `needed`.
pub open spec fn layer_is_installed(installed: Seq<Option<String>>, needed: String) -> bool {
    exists|j: int| 0 <= j < installed.len() && layer_name_matches(#[trigger] installed[j], needed)
}

/// The layers of `needed` that are not installed, in the order asked for.
pub open spec fn missing_layers(installed: Seq<Option<String>>, needed: Seq<String>) -> Seq<String>
    decreases needed.len(),
{
    if needed.len() == 0 {
        Seq::empty()
    } else {
        let rest = missing_layers(installed, needed.drop_last());
        if layer_is_installed(installed, needed.last()) {
            rest
        } else {
            rest.push(needed.last())
        }
    }
}

/// Whether every needed layer is installed.
pub open spec fn all_layers_installed(installed: Seq<Option<String>>, needed: Seq<String>) -> bool {
    forall|i: int| 0 <= i < needed.len() ==> layer_is_installed(installed, #[trigger] needed[i])
}

/// Whether `name` is among the installed layers.
fn is_installed(installed: &Vec<Option<String>>, name: &String) -> (r: bool)
    ensures
        r == layer_is_installed(installed@, *name),
{
    let mut j: usize = 0;
    while j < installed.len()
        invariant
            j <= installed.len(),
            forall|k: int|
                0 <= k < j ==> !layer_name_matches(#[trigger] installed@[k], *name),
        decreases installed.len() - j,
    {
        match &installed[j] {
            Some(layer) => {
                if *layer == *name {
                    return true;
                }
            },
            None => {},
        }
        j = j + 1;
    }
    false
}

/// Checks that the validation layers are installed. `installed` holds the
/// names of the layers the Vulkan loader reports; `needed` those the
/// renderer asks for. Fails with the missing names, in the order asked for.
pub fn check_validation_layers(installed: &Vec<Option<String>>, needed: &Vec<String>) -> (r: Result<(), RendererError>)
    ensures
        r is Ok <==> missing_layers(installed@, needed@).len() == 0,
        r matches Err(e) ==> (e matches RendererError::UnsupportedLayers(names) && names@
            == missing_layers(installed@, needed@)),
{
    let mut missing: Vec<String> = Vec::new();
    let mut i: usize = 0;
    while i < needed.len()
        invariant
            i <= needed.len(),
            missing@ == missing_layers(installed@, needed@.take(i as int)),
        decreases needed.len() - i,
    {
        assert(needed@.take(i + 1).drop_last() == needed@.take(i as int));
        if !is_installed(installed, &needed[i]) {
            missing.push(needed[i].clone());
        }
        i = i + 1;
    }
    assert(needed@.take(needed.len() as int) == needed@);
    if missing.len() > 0 {
        return Err(RendererError::UnsupportedLayers(missing));
    }
    Ok(())
}

/// No layer is missing exactly when every needed layer is installed.
pub proof fn lemma_nothing_missing_iff_all_installed(
    installed: Seq<Option<String>>,
    needed: Seq<String>,
)
    ensures
        (missing_layers(installed, needed).len() == 0) <==> all_layers_installed(installed, needed),
    decreases needed.len(),
{
    if needed.len() > 0 {
        lemma_nothing_missing_iff_all_installed(installed, needed.drop_last());
        lemma_missing_len_bound(installed, needed.drop_last());
        if all_layers_installed(installed, needed) {
            assert forall|i: int| 0 <= i < needed.drop_last().len() implies layer_is_installed(
                installed,
                #[trigger] needed.drop_last()[i],
            ) by {
                assert(needed.drop_last()[i] == needed[i]);
            }
            assert(layer_is_installed(installed, needed[needed.len() - 1]));
        }
        if missing_layers(installed, needed).len() == 0 {
            assert forall|i: int| 0 <= i < needed.len() implies layer_is_installed(
                installed,
                #[trigger] needed[i],
            ) by {
                if i < needed.len() - 1 {
                    assert(needed.drop_last()[i] == needed[i]);
                }
            }
        }
    }
}

/// The missing layers are exactly the needed ones that no installed layer
/// (with a readable name) matches: each reported name is a needed layer that
/// is not installed, and each needed layer that is not installed is
/// reported.
pub proof fn lemma_missing_layers_are_the_uninstalled(
    installed: Seq<Option<String>>,
    needed: Seq<String>,
)
    ensures
        forall|k: int|
            0 <= k < missing_layers(installed, needed).len() ==> exists|i: int|
                0 <= i < needed.len() && needed[i] == #[trigger] missing_layers(installed, needed)[k]
                    && !(exists|j: int|
                    0 <= j < installed.len() && (#[trigger] installed[j]) is Some
                        && installed[j]->0@ == needed[i]@),
        forall|i: int|
            0 <= i < needed.len() && !(exists|j: int|
                0 <= j < installed.len() && (#[trigger] installed[j]) is Some && installed[j]->0@
                    == needed[i]@) ==> missing_layers(installed, needed).contains(#[trigger] needed[i]),
    decreases needed.len(),
{
    if needed.len() > 0 {
        let front = needed.drop_last();
        lemma_missing_layers_are_the_uninstalled(installed, front);
        let last = needed.last();
        let m = missing_layers(installed, needed);
        let mf = missing_layers(installed, front);
        assert(layer_is_installed(installed, last) <==> exists|j: int|
            0 <= j < installed.len() && (#[trigger] installed[j]) is Some && installed[j]->0@
                == last@) by {
            if layer_is_installed(installed, last) {
                let j = choose|j: int|
                    0 <= j < installed.len() && layer_name_matches(#[trigger] installed[j], last);
                assert(installed[j] is Some && installed[j]->0@ == last@);
            }
            if exists|j: int|
                0 <= j < installed.len() && (#[trigger] installed[j]) is Some && installed[j]->0@
                    == last@ {
                let j = choose|j: int|
                    0 <= j < installed.len() && (#[trigger] installed[j]) is Some
                        && installed[j]->0@ == last@;
                assert(layer_name_matches(installed[j], last));
            }
        }
        assert forall|k: int| 0 <= k < m.len() implies exists|i: int|
            0 <= i < needed.len() && needed[i] == #[trigger] m[k] && !(exists|j: int|
                0 <= j < installed.len() && (#[trigger] installed[j]) is Some && installed[j]->0@
                    == needed[i]@) by {
            if k < mf.len() {
                assert(m[k] == mf[k]);
                let i = choose|i: int|
                    0 <= i < front.len() && front[i] == #[trigger] mf[k] && !(exists|j: int|
                        0 <= j < installed.len() && (#[trigger] installed[j]) is Some
                            && installed[j]->0@ == front[i]@);
                assert(needed[i] == front[i]);
            } else {
                assert(m[k] == last);
                assert(needed[needed.len() - 1] == last);
            }
        }
        assert forall|i: int|
            0 <= i < needed.len() && !(exists|j: int|
                0 <= j < installed.len() && (#[trigger] installed[j]) is Some && installed[j]->0@
                    == needed[i]@) implies m.contains(#[trigger] needed[i]) by {
            if i < needed.len() - 1 {
                assert(front[i] == needed[i]);
                assert(mf.contains(front[i]));
                let k = choose|k: int| 0 <= k < mf.len() && mf[k] == front[i];
                assert(m[k] == mf[k]);
            } else {
                assert(m[m.len() - 1] == last);
            }
        }
    }
}

proof fn lemma_missing_len_bound(installed: Seq<Option<String>>, needed: Seq<String>)
    ensures
        missing_layers(installed, needed).len() <= needed.len(),
    decreases needed.len(),
{
    if needed.len() > 0 {
        lemma_missing_len_bound(installed, needed.drop_last());
    }
}

} // verus!
