//! The input fields of the dual-account logon form and what the form says.
use vstd::prelude::*;
use crate::text::{is_blank, to_wide, trim, utf16_encode};

verus! {

/// Kind of an editable field.
#[derive(Debug, Clone, Copy, PartialEq, Eq, Structural)]
pub enum TextFieldType {
    Username,
    Password,
}

/// An editable field of the form.
pub struct TextField {
    pub field_type: TextFieldType,
    pub value: String,
    pub is_required: bool,
    pub label: String,
}

impl TextField {
    /// A required, empty field with the given label.
    pub fn new(field_type: TextFieldType, label: &str) -> (f: TextField)
        ensures
            f.field_type == field_type,
            f.value@ == Seq::<char>::empty(),
            f.is_required,
            f.label@ == label@,
    {
        TextField { field_type, value: String::new(), is_required: true, label: String::from_str(label) }
    }

    /// Replaces the field's text.
    pub fn set_value(&mut self, text: &str)
        ensures
            final(self).value@ == text@,
            final(self).field_type == old(self).field_type,
            final(self).is_required == old(self).is_required,
            final(self).label@ == old(self).label@,
    {
        self.value = String::from_str(text);
    }

    /// Whether the field holds nothing but whitespace.
    pub fn is_empty(&self) -> (b: bool)
        ensures
            b == (trim(self.value@).len() == 0),
    {
        is_blank(self.value.as_str())
    }
}

/// The form: two sets of credentials, a submit button and a status line.
pub struct DualAuthUi {
    pub user_a_username: TextField,
    pub user_a_password: TextField,
    pub user_b_username: TextField,
    pub user_b_password: TextField,
    pub submit_button_label: String,
    pub status_message: String,
}

pub open spec fn greeting() -> Seq<char> {
    "Enter both users' credentials\0"@
}

/// Usernames count as filled when they hold more than whitespace; passwords
/// when they hold anything at all.
pub open spec fn all_credentials(ui: DualAuthUi) -> bool {
    &&& trim(ui.user_a_username.value@).len() != 0
    &&& ui.user_a_password.value@.len() != 0
    &&& trim(ui.user_b_username.value@).len() != 0
    &&& ui.user_b_password.value@.len() != 0
}

/// The status line for the form's current input.
pub open spec fn status_for(ui: DualAuthUi) -> Seq<char> {
    let a_empty = trim(ui.user_a_username.value@).len() == 0;
    let b_empty = trim(ui.user_b_username.value@).len() == 0;
    if a_empty && b_empty {
        ui.status_message@
    } else if !a_empty && b_empty {
        "Waiting for second user"@
    } else {
        "Ready to verify"@
    }
}

impl DualAuthUi {
    /// An empty form.
    pub fn new() -> (ui: DualAuthUi)
        ensures
            ui.user_a_username.value@ == Seq::<char>::empty(),
            ui.user_a_password.value@ == Seq::<char>::empty(),
            ui.user_b_username.value@ == Seq::<char>::empty(),
            ui.user_b_password.value@ == Seq::<char>::empty(),
            ui.user_a_username.field_type == TextFieldType::Username,
            ui.user_a_password.field_type == TextFieldType::Password,
            ui.user_b_username.field_type == TextFieldType::Username,
            ui.user_b_password.field_type == TextFieldType::Password,
            ui.user_a_username.label@ == "First User"@,
            ui.user_a_password.label@ == "First Password"@,
            ui.user_b_username.label@ == "Second User"@,
            ui.user_b_password.label@ == "Second Password"@,
            ui.submit_button_label@ == "Submit\0"@,
            ui.status_message@ == greeting(),
    {
        DualAuthUi {
            user_a_username: TextField::new(TextFieldType::Username, "First User"),
            user_a_password: TextField::new(TextFieldType::Password, "First Password"),
            user_b_username: TextField::new(TextFieldType::Username, "Second User"),
            user_b_password: TextField::new(TextFieldType::Password, "Second Password"),
            submit_button_label: String::from_str("Submit\0"),
            status_message: String::from_str("Enter both users' credentials\0"),
        }
    }

    /// Whether all four fields are filled.
    pub fn has_all_credentials(&self) -> (b: bool)
        ensures
            b == all_credentials(*self),
    {
        !self.user_a_username.is_empty() && !self.user_a_password.value.as_str().is_empty()
            && !self.user_b_username.is_empty() && !self.user_b_password.value.as_str().is_empty()
    }

    /// The status line for the current input.
    pub fn get_status(&self) -> (s: &str)
        ensures
            s@ == status_for(*self),
    {
        let a_empty = self.user_a_username.is_empty();
        let b_empty = self.user_b_username.is_empty();
        if a_empty && b_empty {
            self.status_message.as_str()
        } else if !a_empty && b_empty {
            "Waiting for second user"
        } else {
            "Ready to verify"
        }
    }

    /// Clears all four fields and restores the greeting.
    pub fn reset(&mut self)
        ensures
            final(self).user_a_username.value@ == Seq::<char>::empty(),
            final(self).user_a_password.value@ == Seq::<char>::empty(),
            final(self).user_b_username.value@ == Seq::<char>::empty(),
            final(self).user_b_password.value@ == Seq::<char>::empty(),
            final(self).status_message@ == greeting(),
            final(self).submit_button_label@ == old(self).submit_button_label@,
            final(self).user_a_username.label@ == old(self).user_a_username.label@,
            final(self).user_a_password.label@ == old(self).user_a_password.label@,
            final(self).user_b_username.label@ == old(self).user_b_username.label@,
            final(self).user_b_password.label@ == old(self).user_b_password.label@,
            final(self).user_a_username.field_type == old(self).user_a_username.field_type,
            final(self).user_a_password.field_type == old(self).user_a_password.field_type,
            final(self).user_b_username.field_type == old(self).user_b_username.field_type,
            final(self).user_b_password.field_type == old(self).user_b_password.field_type,
            final(self).user_a_username.is_required == old(self).user_a_username.is_required,
            final(self).user_a_password.is_required == old(self).user_a_password.is_required,
            final(self).user_b_username.is_required == old(self).user_b_username.is_required,
            final(self).user_b_password.is_required == old(self).user_b_password.is_required,
    {
        self.user_a_username.set_value("");
        self.user_a_password.set_value("");
        self.user_b_username.set_value("");
        self.user_b_password.set_value("");
        self.status_message = String::from_str("Enter both users' credentials\0");
        proof {
            reveal_strlit("");
        }
    }
}

/// `s` as a null-terminated UTF-16 string.
pub fn string_to_wstring(s: &str) -> (w: Vec<u16>)
    ensures
        w@ == utf16_encode(s@).push(0u16),
{
    to_wide(s)
}

} // verus!
