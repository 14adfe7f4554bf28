//! The contact screen: a form with three text fields and a submit button.
use vstd::prelude::*;
use crate::keymap::{first_match, form_bindings, form_keys, match_key, submitted_bindings, submitted_keys, Action, KeyCode, KeyEvent};
use crate::view::ViewResult;

verus! {

/// The form element with focus.
#[derive(Clone, Copy, PartialEq, Eq, Structural, Debug)]
pub enum ContactField {
    Name,
    Email,
    Message,
    Submit,
}

/// Why a submission was refused.
#[derive(Clone, Copy, PartialEq, Eq, Structural, Debug)]
pub enum FormError {
    NameRequired,
    EmailRequired,
    MessageRequired,
}

impl FormError {
    /// The message shown for this error.
    pub fn message(&self) -> (r: &'static str)
        ensures
            r@ == match self {
                FormError::NameRequired => "Name is required"@,
                FormError::EmailRequired => "Valid email is required"@,
                FormError::MessageRequired => "Message is required"@,
            },
    {
        match self {
            FormError::NameRequired => "Name is required",
            FormError::EmailRequired => "Valid email is required",
            FormError::MessageRequired => "Message is required",
        }
    }
}

/// The form as values.
pub struct ContactForm {
    pub focused_field: ContactField,
    pub name: Seq<char>,
    pub email: Seq<char>,
    pub message: Seq<char>,
    pub submitted: bool,
    pub error: Option<FormError>,
}

pub open spec fn next_field(f: ContactField) -> ContactField {
    match f {
        ContactField::Name => ContactField::Email,
        ContactField::Email => ContactField::Message,
        _ => ContactField::Submit,
    }
}

pub open spec fn prev_field(f: ContactField) -> ContactField {
    match f {
        ContactField::Submit => ContactField::Message,
        ContactField::Message => ContactField::Email,
        _ => ContactField::Name,
    }
}

/// The first problem of a form's fields, checked in order: a name, then an
/// email address holding `@`, then a message.
pub open spec fn form_problem(name: Seq<char>, email: Seq<char>, message: Seq<char>) -> Option<
    FormError,
> {
    if name.len() == 0 {
        Some(FormError::NameRequired)
    } else if !email.contains('@') {
        Some(FormError::EmailRequired)
    } else if message.len() == 0 {
        Some(FormError::MessageRequired)
    } else {
        None
    }
}

/// The field where an error puts the focus.
pub open spec fn field_of(e: FormError) -> ContactField {
    match e {
        FormError::NameRequired => ContactField::Name,
        FormError::EmailRequired => ContactField::Email,
        FormError::MessageRequired => ContactField::Message,
    }
}

pub open spec fn typed(f: ContactForm, c: char) -> ContactForm {
    match f.focused_field {
        ContactField::Name => ContactForm { name: f.name.push(c), ..f },
        ContactField::Email => ContactForm { email: f.email.push(c), ..f },
        ContactField::Message => ContactForm { message: f.message.push(c), ..f },
        ContactField::Submit => f,
    }
}

pub open spec fn chopped(s: Seq<char>) -> Seq<char> {
    if s.len() > 0 {
        s.drop_last()
    } else {
        s
    }
}

pub open spec fn erased(f: ContactForm) -> ContactForm {
    match f.focused_field {
        ContactField::Name => ContactForm { name: chopped(f.name), ..f },
        ContactField::Email => ContactForm { email: chopped(f.email), ..f },
        ContactField::Message => ContactForm { message: chopped(f.message), ..f },
        ContactField::Submit => f,
    }
}

pub open spec fn submitted_form(f: ContactForm) -> ContactForm {
    match form_problem(f.name, f.email, f.message) {
        Some(e) => ContactForm { error: Some(e), focused_field: field_of(e), ..f },
        None => ContactForm { submitted: true, error: None, ..f },
    }
}

pub open spec fn blank_form() -> ContactForm {
    ContactForm {
        focused_field: ContactField::Name,
        name: Seq::empty(),
        email: Seq::empty(),
        message: Seq::empty(),
        submitted: false,
        error: None,
    }
}

/// The contact screen's answer to a key. A submitted form only goes back
/// (and is cleared); otherwise form keys act, and any other character is
/// typed into the focused field.
pub open spec fn contact_key(f: ContactForm, key: KeyEvent) -> (ContactForm, ViewResult) {
    if f.submitted {
        if first_match(submitted_bindings(), key) == Some(Action::Back) {
            (blank_form(), ViewResult::Back)
        } else {
            (f, ViewResult::Ignored)
        }
    } else {
        match first_match(form_bindings(), key) {
            Some(Action::Back) => (f, ViewResult::Back),
            Some(Action::FocusNext) => (
                ContactForm { focused_field: next_field(f.focused_field), ..f },
                ViewResult::Handled,
            ),
            Some(Action::FocusPrev) => (
                ContactForm { focused_field: prev_field(f.focused_field), ..f },
                ViewResult::Handled,
            ),
            Some(Action::Submit) => (submitted_form(f), ViewResult::Handled),
            Some(Action::Backspace) => (erased(f), ViewResult::Handled),
            Some(_) => (f, ViewResult::Ignored),
            None => match key.code {
                KeyCode::Char(c) => (typed(f, c), ViewResult::Handled),
                _ => (f, ViewResult::Ignored),
            },
        }
    }
}

/// Contact screen state.
pub struct ContactView {
    pub focused_field: ContactField,
    pub name: Vec<char>,
    pub email: Vec<char>,
    pub message: Vec<char>,
    pub submitted: bool,
    pub error: Option<FormError>,
}

impl View for ContactView {
    type V = ContactForm;

    open spec fn view(&self) -> ContactForm {
        ContactForm {
            focused_field: self.focused_field,
            name: self.name@,
            email: self.email@,
            message: self.message@,
            submitted: self.submitted,
            error: self.error,
        }
    }
}

fn has_at_sign(s: &Vec<char>) -> (r: bool)
    ensures
        r == s@.contains('@'),
{
    let mut i: usize = 0;
    while i < s.len()
        invariant
            i <= s@.len(),
            forall|k: int| 0 <= k < i ==> s@[k] != '@',
        decreases s@.len() - i,
    {
        if s[i] == '@' {
            return true;
        }
        i += 1;
    }
    false
}

fn chop(s: &mut Vec<char>)
    ensures
        final(s)@ == chopped(old(s)@),
{
    if s.len() > 0 {
        s.pop();
    }
}

impl ContactView {
    /// An empty form, focus on the name.
    pub fn new() -> (r: ContactView)
        ensures
            r@ == blank_form(),
    {
        let r = ContactView {
            focused_field: ContactField::Name,
            name: Vec::new(),
            email: Vec::new(),
            message: Vec::new(),
            submitted: false,
            error: None,
        };
        assert(r@.name =~= Seq::<char>::empty());
        r
    }

    /// Focus on the next element, stopping at the button.
    pub fn focus_next(&mut self)
        ensures
            final(self)@ == (ContactForm { focused_field: next_field(old(self)@.focused_field), ..old(self)@ }),
    {
        self.focused_field = match self.focused_field {
            ContactField::Name => ContactField::Email,
            ContactField::Email => ContactField::Message,
            ContactField::Message => ContactField::Submit,
            ContactField::Submit => ContactField::Submit,
        };
    }

    /// Focus on the previous element, stopping at the name.
    pub fn focus_prev(&mut self)
        ensures
            final(self)@ == (ContactForm { focused_field: prev_field(old(self)@.focused_field), ..old(self)@ }),
    {
        self.focused_field = match self.focused_field {
            ContactField::Name => ContactField::Name,
            ContactField::Email => ContactField::Name,
            ContactField::Message => ContactField::Email,
            ContactField::Submit => ContactField::Message,
        };
    }

    /// Appends `c` to the focused text field.
    pub fn type_char(&mut self, c: char)
        ensures
            final(self)@ == typed(old(self)@, c),
    {
        match self.focused_field {
            ContactField::Name => self.name.push(c),
            ContactField::Email => self.email.push(c),
            ContactField::Message => self.message.push(c),
            ContactField::Submit => {},
        }
    }

    /// Removes the last character of the focused text field.
    pub fn backspace(&mut self)
        ensures
            final(self)@ == erased(old(self)@),
    {
        match self.focused_field {
            ContactField::Name => chop(&mut self.name),
            ContactField::Email => chop(&mut self.email),
            ContactField::Message => chop(&mut self.message),
            ContactField::Submit => {},
        }
    }

    /// Submits the form: the first problem found is recorded and focused and
    /// `false` returned; a complete form is marked submitted.
    pub fn submit(&mut self) -> (r: bool)
        ensures
            r == (form_problem(old(self)@.name, old(self)@.email, old(self)@.message) is None),
            final(self)@ == submitted_form(old(self)@),
    {
        if self.name.len() == 0 {
            self.error = Some(FormError::NameRequired);
            self.focused_field = ContactField::Name;
            return false;
        }
        if !has_at_sign(&self.email) {
            self.error = Some(FormError::EmailRequired);
            self.focused_field = ContactField::Email;
            return false;
        }
        if self.message.len() == 0 {
            self.error = Some(FormError::MessageRequired);
            self.focused_field = ContactField::Message;
            return false;
        }
        self.submitted = true;
        self.error = None;
        true
    }

    /// Clears the form.
    pub fn reset(&mut self)
        ensures
            final(self)@ == blank_form(),
    {
        self.name.clear();
        self.email.clear();
        self.message.clear();
        self.submitted = false;
        self.error = None;
        self.focused_field = ContactField::Name;
        assert(self@.name =~= Seq::<char>::empty());
        assert(self@.email =~= Seq::<char>::empty());
        assert(self@.message =~= Seq::<char>::empty());
    }

    pub fn is_submitted(&self) -> (r: bool)
        ensures
            r == self@.submitted,
    {
        self.submitted
    }

    /// Handles a key press.
    pub fn handle_key(&mut self, key: KeyEvent) -> (r: ViewResult)
        ensures
            (final(self)@, r) == contact_key(old(self)@, key),
    {
        if self.submitted {
            let keys = submitted_keys();
            if match_key(key, keys.as_slice()) == Some(Action::Back) {
                self.reset();
                return ViewResult::Back;
            }
            return ViewResult::Ignored;
        }
        let keys = form_keys();
        match match_key(key, keys.as_slice()) {
            Some(Action::Back) => ViewResult::Back,
            Some(Action::FocusNext) => {
                self.focus_next();
                ViewResult::Handled
            },
            Some(Action::FocusPrev) => {
                self.focus_prev();
                ViewResult::Handled
            },
            Some(Action::Submit) => {
                self.submit();
                ViewResult::Handled
            },
            Some(Action::Backspace) => {
                self.backspace();
                ViewResult::Handled
            },
            Some(_) => ViewResult::Ignored,
            None => match key.code {
                KeyCode::Char(c) => {
                    self.type_char(c);
                    ViewResult::Handled
                },
                _ => ViewResult::Ignored,
            },
        }
    }
}

} // verus!
