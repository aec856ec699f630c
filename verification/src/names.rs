//! Names of the instance and device extensions and of the validation layer
//! that the renderer asks for, and lists of such names.
//!
//! The extension names are those that `ash` holds, taken on trust.

use vstd::prelude::*;

verus! {

/// The text of each name in a list, in order.
pub open spec fn texts(names: Seq<String>) -> Seq<Seq<char>> {
    names.map_values(|name: String| name@)
}

/// Whether `name` occurs in a list of names.
pub open spec fn lists(names: Seq<String>, name: Seq<char>) -> bool {
    exists|i: int| 0 <= i < names.len() && (#[trigger] names[i])@ == name
}

/// Trusted: `ash::khr::surface::NAME` holds the text `VK_KHR_surface`.
#[verifier::external_body]
pub(crate) fn khr_surface() -> (name: String)
    ensures
        name@ == "VK_KHR_surface"@,
{
    ash::khr::surface::NAME.to_string_lossy().into_owned()
}

/// Trusted: `ash::khr::swapchain::NAME` holds the text `VK_KHR_swapchain`.
#[verifier::external_body]
pub(crate) fn khr_swapchain() -> (name: String)
    ensures
        name@ == "VK_KHR_swapchain"@,
{
    ash::khr::swapchain::NAME.to_string_lossy().into_owned()
}

/// Trusted: `ash::khr::xcb_surface::NAME` holds the text `VK_KHR_xcb_surface`.
#[verifier::external_body]
pub(crate) fn khr_xcb_surface() -> (name: String)
    ensures
        name@ == "VK_KHR_xcb_surface"@,
{
    ash::khr::xcb_surface::NAME.to_string_lossy().into_owned()
}

/// Trusted: `ash::khr::win32_surface::NAME` holds the text `VK_KHR_win32_surface`.
#[verifier::external_body]
pub(crate) fn khr_win32_surface() -> (name: String)
    ensures
        name@ == "VK_KHR_win32_surface"@,
{
    ash::khr::win32_surface::NAME.to_string_lossy().into_owned()
}

/// Trusted: `ash::mvk::macos_surface::NAME` holds the text `VK_MVK_macos_surface`.
#[verifier::external_body]
pub(crate) fn mvk_macos_surface() -> (name: String)
    ensures
        name@ == "VK_MVK_macos_surface"@,
{
    ash::mvk::macos_surface::NAME.to_string_lossy().into_owned()
}

/// Trusted: `ash::ext::debug_utils::NAME` holds the text `VK_EXT_debug_utils`.
#[verifier::external_body]
pub(crate) fn ext_debug_utils() -> (name: String)
    ensures
        name@ == "VK_EXT_debug_utils"@,
{
    ash::ext::debug_utils::NAME.to_string_lossy().into_owned()
}

/// Trusted: `ash::khr::portability_enumeration::NAME` holds the text `VK_KHR_portability_enumeration`.
#[verifier::external_body]
pub(crate) fn khr_portability_enumeration() -> (name: String)
    ensures
        name@ == "VK_KHR_portability_enumeration"@,
{
    ash::khr::portability_enumeration::NAME.to_string_lossy().into_owned()
}

/// Trusted: `ash::khr::portability_subset::NAME` holds the text `VK_KHR_portability_subset`.
#[verifier::external_body]
pub(crate) fn khr_portability_subset() -> (name: String)
    ensures
        name@ == "VK_KHR_portability_subset"@,
{
    ash::khr::portability_subset::NAME.to_string_lossy().into_owned()
}

/// Trusted: `ash::khr::get_physical_device_properties2::NAME` holds the text `VK_KHR_get_physical_device_properties2`.
#[verifier::external_body]
pub(crate) fn khr_get_physical_device_properties2() -> (name: String)
    ensures
        name@ == "VK_KHR_get_physical_device_properties2"@,
{
    ash::khr::get_physical_device_properties2::NAME.to_string_lossy().into_owned()
}

/// Trusted: `ash::khr::get_display_properties2::NAME` holds the text `VK_KHR_get_display_properties2`.
#[verifier::external_body]
pub(crate) fn khr_get_display_properties2() -> (name: String)
    ensures
        name@ == "VK_KHR_get_display_properties2"@,
{
    ash::khr::get_display_properties2::NAME.to_string_lossy().into_owned()
}

/// No name occurs twice.
pub open spec fn distinct(names: Seq<Seq<char>>) -> bool {
    forall|i: int, j: int| 0 <= i < j < names.len() ==> names[i] != names[j]
}

/// How many entries of `available` are names that `required` lists. An
/// entry that occurs twice counts twice.
pub open spec fn count_listed(available: Seq<Seq<char>>, required: Seq<Seq<char>>) -> nat
    decreases available.len(),
{
    if available.len() == 0 {
        0
    } else {
        count_listed(available.drop_last(), required) + if required.contains(available.last()) {
            1nat
        } else {
            0nat
        }
    }
}

/// Where nothing is required, no entry is listed.
proof fn lemma_count_listed_none(available: Seq<Seq<char>>)
    ensures
        count_listed(available, Seq::empty()) == 0,
    decreases available.len(),
{
    if available.len() > 0 {
        lemma_count_listed_none(available.drop_last());
    }
}

/// One more name in `required`, which `available` does not hold yet, is one
/// more listed entry where `available` holds it, and none otherwise.
proof fn lemma_count_listed_push(available: Seq<Seq<char>>, required: Seq<Seq<char>>, name: Seq<char>)
    requires
        distinct(available),
        !required.contains(name),
    ensures
        count_listed(available, required.push(name)) == count_listed(available, required) + if available.contains(
            name,
        ) {
            1nat
        } else {
            0nat
        },
    decreases available.len(),
{
    if available.len() > 0 {
        let rest = available.drop_last();
        let last = available.last();
        lemma_count_listed_push(rest, required, name);
        assert(required.push(name).contains(last) == (required.contains(last) || last == name)) by {
            if required.contains(last) {
                let k = choose|k: int| 0 <= k < required.len() && required[k] == last;
                assert(required.push(name)[k] == last);
            }
            if last == name {
                assert(required.push(name)[required.len() as int] == last);
            }
        }
        assert(available.contains(name) == (rest.contains(name) || last == name)) by {
            if available.contains(name) {
                let k = choose|k: int| 0 <= k < available.len() && available[k] == name;
                if k < rest.len() {
                    assert(rest[k] == name);
                }
            }
            if rest.contains(name) {
                let k = choose|k: int| 0 <= k < rest.len() && rest[k] == name;
                assert(available[k] == name);
            }
            if last == name {
                assert(available[available.len() - 1] == name);
            }
        }
        if last == name {
            assert(!rest.contains(name)) by {
                if rest.contains(name) {
                    let k = choose|k: int| 0 <= k < rest.len() && rest[k] == name;
                    assert(available[k] == available[available.len() - 1]);
                }
            }
        }
    }
}

/// Among names none of which occurs twice, as many entries of the one list
/// are listed in the other as the other way round.
pub proof fn lemma_count_listed_symmetric(available: Seq<Seq<char>>, required: Seq<Seq<char>>)
    requires
        distinct(available),
        distinct(required),
    ensures
        count_listed(available, required) == count_listed(required, available),
    decreases required.len(),
{
    if required.len() == 0 {
        assert(required =~= Seq::empty());
        lemma_count_listed_none(available);
    } else {
        let rest = required.drop_last();
        let last = required.last();
        lemma_count_listed_symmetric(available, rest);
        assert(!rest.contains(last)) by {
            if rest.contains(last) {
                let k = choose|k: int| 0 <= k < rest.len() && rest[k] == last;
                assert(required[k] == required[required.len() - 1]);
            }
        }
        lemma_count_listed_push(available, rest, last);
        assert(rest.push(last) =~= required);
    }
}

/// No more entries are listed than there are, and all of them are listed
/// exactly where each of them occurs in the other list.
pub proof fn lemma_count_listed_all(entries: Seq<Seq<char>>, list: Seq<Seq<char>>)
    ensures
        count_listed(entries, list) <= entries.len(),
        count_listed(entries, list) == entries.len() <==> forall|k: int|
            0 <= k < entries.len() ==> list.contains(#[trigger] entries[k]),
    decreases entries.len(),
{
    if entries.len() > 0 {
        let rest = entries.drop_last();
        lemma_count_listed_all(rest, list);
        if count_listed(entries, list) == entries.len() {
            assert forall|k: int| 0 <= k < entries.len() implies list.contains(
                #[trigger] entries[k],
            ) by {
                if k < rest.len() {
                    assert(rest[k] == entries[k]);
                }
            }
        }
        if forall|k: int| 0 <= k < entries.len() ==> list.contains(#[trigger] entries[k]) {
            assert forall|k: int| 0 <= k < rest.len() implies list.contains(#[trigger] rest[k]) by {
                assert(rest[k] == entries[k]);
            }
            assert(list.contains(entries[entries.len() - 1]));
        }
    }
}

/// Appending a name appends its text.
pub proof fn lemma_texts_push(names: Seq<String>, name: String)
    ensures
        texts(names.push(name)) == texts(names).push(name@),
{
    assert(texts(names.push(name)) =~= texts(names).push(name@));
}

/// A name occurs in a list exactly when its text occurs among the texts.
pub proof fn lemma_lists_texts(names: Seq<String>, name: Seq<char>)
    ensures
        lists(names, name) == texts(names).contains(name),
{
    if lists(names, name) {
        let i = choose|i: int| 0 <= i < names.len() && (#[trigger] names[i])@ == name;
        assert(texts(names)[i] == name);
    }
    if texts(names).contains(name) {
        let i = choose|i: int| 0 <= i < texts(names).len() && texts(names)[i] == name;
        assert(names[i]@ == name);
    }
}

/// The Khronos validation layer.
pub fn khronos_validation_layer() -> (name: String)
    ensures
        name@ == "VK_LAYER_KHRONOS_validation"@,
{
    "VK_LAYER_KHRONOS_validation".to_owned()
}

/// A copy of a list of names.
pub fn clone_names(names: &Vec<String>) -> (copy: Vec<String>)
    ensures
        copy@ == names@,
{
    let mut copy: Vec<String> = Vec::new();
    let mut i: usize = 0;
    while i < names.len()
        invariant
            i <= names.len(),
            copy@ == names@.take(i as int),
        decreases names.len() - i,
    {
        copy.push(names[i].clone());
        assert(copy@ =~= names@.take(i as int + 1));
        i += 1;
    }
    assert(names@.take(i as int) =~= names@);
    copy
}

/// Whether `name` occurs in `names`.
pub fn contains_name(names: &Vec<String>, name: &String) -> (found: bool)
    ensures
        found == lists(names@, name@),
{
    let mut i: usize = 0;
    while i < names.len()
        invariant
            i <= names.len(),
            forall|j: int| 0 <= j < i ==> (#[trigger] names[j])@ != name@,
        decreases names.len() - i,
    {
        if names[i] == *name {
            return true;
        }
        i += 1;
    }
    false
}

} // verus!
