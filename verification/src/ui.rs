//! What a click on a card leads to.

use vstd::prelude::*;
use vstd::string::StringExecFns;
use vstd::utf8::encode_utf8;
use vstd::view::View as _;
use crate::card::View;
use crate::text::{percent_encode, percent_encoded, str_eq};

verus! {

/// What a button of a card asks for.
#[derive(Clone, Copy, Debug, PartialEq, Eq, Structural)]
pub enum ButtonAction {
    /// Delete the object.
    Delete,
    /// Show the edit view.
    Edit,
    /// Show the status view.
    Status,
    /// Save the changes.
    Save,
    /// Nothing: the button is not one of a card.
    Other,
}

/// The action of the button with an id.
pub open spec fn action_of(id: Seq<char>) -> ButtonAction {
    if id == "ob_delete"@ {
        ButtonAction::Delete
    } else if id == "ob_edit"@ {
        ButtonAction::Edit
    } else if id == "ob_status"@ {
        ButtonAction::Status
    } else if id == "ob_save"@ {
        ButtonAction::Save
    } else {
        ButtonAction::Other
    }
}

/// What the button with an id asks for.
pub fn button_action(id: &str) -> (r: ButtonAction)
    ensures
        r == action_of(id@),
{
    if str_eq(id, "ob_delete") {
        ButtonAction::Delete
    } else if str_eq(id, "ob_edit") {
        ButtonAction::Edit
    } else if str_eq(id, "ob_status") {
        ButtonAction::Status
    } else if str_eq(id, "ob_save") {
        ButtonAction::Save
    } else {
        ButtonAction::Other
    }
}

/// The id of the element that holds the card of an object: the type name,
/// `_`, and the object's name.
pub fn card_id(tname: &str, name: &str) -> (r: String)
    ensures
        r@ == tname@ + "_"@ + name@,
{
    let mut id = String::from_str(tname);
    id.append("_");
    id.append(name);
    id
}

/// The address of an object below the address of its type: the object's
/// name percent-encoded, after a slash.
pub fn card_uri(uri: &str, name: &str) -> (r: String)
    ensures
        r@ == uri@ + "/"@ + percent_encoded(encode_utf8(name@)),
{
    let mut out = String::from_str(uri);
    out.append("/");
    out.append(percent_encode(name).as_str());
    out
}

/// The class of the element that holds a card: `card` for a compact view,
/// and `form` for any other, which is also scrolled into sight.
pub fn card_class(view: View) -> (r: &'static str)
    ensures
        r@ == if view is Compact || view is CreateCompact {
            "card"@
        } else {
            "form"@
        },
{
    if view.is_compact() {
        "card"
    } else {
        "form"
    }
}

} // verus!
