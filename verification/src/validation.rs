//! Validation of request bodies.

use vstd::prelude::*;
use vstd::string::StrSliceExecFns;
use crate::entities::User;
use crate::error::{
    app_error, error_with, message_error, text, AppError, DetailView, ErrorDetail, ErrorKind,
    FieldErrors,
};

verus! {

/// What `validator::ValidateEmail::validate_email` says of a text: whether it is an
/// e-mail address by the HTML5 rules (with the local part at most 64 characters and the
/// domain at most 255).
pub uninterp spec fn email_valid(text: Seq<char>) -> bool;

/// `validator::ValidateEmail::validate_email` on a text. Its result is named by
/// `email_valid`; the contract also states the first test that its source makes: a text
/// that is empty or holds no `@` is refused.
#[verifier::external_body]
fn validate_email(text: &str) -> (ok: bool)
    ensures
        ok == email_valid(text@),
        (text@.len() == 0 || !text@.contains('@')) ==> !ok,
{
    validator::ValidateEmail::validate_email(&text)
}

/// Whether a text has between `min` and `max` characters (`validator`'s `length` rule).
pub open spec fn length_within(text: Seq<char>, min: int, max: int) -> bool {
    min <= text.len() <= max
}

fn length_between(text: &str, min: usize, max: usize) -> (ok: bool)
    ensures
        ok == length_within(text@, min as int, max as int),
{
    let n = text.unicode_len();
    min <= n && n <= max
}

/// A sign-up form.
#[derive(Debug)]
pub struct RegisterRequest {
    pub name: String,
    pub email: String,
    pub password: String,
}

/// The view of the errors of one field with a single message.
pub open spec fn field_error(field: Seq<char>, message: Seq<char>) -> (Seq<char>, Seq<Seq<char>>) {
    (field, seq![message])
}

/// The errors of a sign-up form, by field in alphabetical order (as the reply lists
/// them): the e-mail must be valid, the name 3 to 50 characters, the password 6 to 100.
pub open spec fn register_errors(name: Seq<char>, email: Seq<char>, password: Seq<char>) -> Seq<
    (Seq<char>, Seq<Seq<char>>),
> {
    (if email_valid(email) {
        Seq::empty()
    } else {
        seq![field_error("email"@, "Invalid email format"@)]
    }) + (if length_within(name, 3, 50) {
        Seq::empty()
    } else {
        seq![field_error("name"@, "Name must be between 3 and 50 characters"@)]
    }) + (if length_within(password, 6, 100) {
        Seq::empty()
    } else {
        seq![field_error("password"@, "Password must be at least 6 characters"@)]
    })
}

/// A sign-up form has no errors exactly when its e-mail is valid, its name has 3 to 50
/// characters and its password 6 to 100; each field is reported exactly when it breaks
/// its own rule, the e-mail first, then the name, then the password.
pub proof fn lemma_register_form_rules(name: Seq<char>, email: Seq<char>, password: Seq<char>)
    ensures
        register_errors(name, email, password).len() == 0 <==> (email_valid(email) && 3
            <= name.len() <= 50 && 6 <= password.len() <= 100),
        register_errors(name, email, password).len() == (if email_valid(email) {
            0int
        } else {
            1int
        }) + (if 3 <= name.len() <= 50 {
            0int
        } else {
            1int
        }) + (if 6 <= password.len() <= 100 {
            0int
        } else {
            1int
        }),
        !email_valid(email) ==> register_errors(name, email, password)[0] == (
            "email"@,
            seq!["Invalid email format"@],
        ),
        !(3 <= name.len() <= 50) && email_valid(email) ==> register_errors(name, email, password)[0]
            == ("name"@, seq!["Name must be between 3 and 50 characters"@]),
        !(6 <= password.len() <= 100) ==> register_errors(name, email, password).last() == (
            "password"@,
            seq!["Password must be at least 6 characters"@],
        ),
        6 <= password.len() <= 100 ==> forall|i: int|
            0 <= i < register_errors(name, email, password).len() ==> (#[trigger] register_errors(
                name,
                email,
                password,
            )[i]).0 != "password"@,
{
    reveal_strlit("password");
    reveal_strlit("email");
    reveal_strlit("name");
    let errors = register_errors(name, email, password);
    if 6 <= password.len() <= 100 {
        assert forall|i: int| 0 <= i < errors.len() implies (#[trigger] errors[i]).0 != "password"@ by {
            assert(errors[i].0 == "email"@ || errors[i].0 == "name"@);
        }
    }
}

fn one_field_error(field: &str, message: &str) -> (f: FieldErrors)
    ensures
        f@ == field_error(field@, message@),
{
    let mut messages: Vec<String> = Vec::new();
    messages.push(text(message));
    let f = FieldErrors { field: text(field), messages };
    assert(f.messages@.map_values(|m: String| m@) =~= seq![message@]);
    f
}

impl RegisterRequest {
    /// The validation errors of the form, empty when it is valid.
    pub fn validate(&self) -> (errors: Vec<FieldErrors>)
        ensures
            errors@.map_values(|f: FieldErrors| f@) == register_errors(
                self.name@,
                self.email@,
                self.password@,
            ),
    {
        let mut errors: Vec<FieldErrors> = Vec::new();
        let ghost expected = register_errors(self.name@, self.email@, self.password@);
        if !validate_email(self.email.as_str()) {
            errors.push(one_field_error("email", "Invalid email format"));
        }
        let ghost after_email = errors@.map_values(|f: FieldErrors| f@);
        if !length_between(self.name.as_str(), 3, 50) {
            errors.push(one_field_error("name", "Name must be between 3 and 50 characters"));
        }
        let ghost after_name = errors@.map_values(|f: FieldErrors| f@);
        if !length_between(self.password.as_str(), 6, 100) {
            errors.push(
                one_field_error("password", "Password must be at least 6 characters"),
            );
        }
        proof {
            let e = if email_valid(self.email@) {
                Seq::<(Seq<char>, Seq<Seq<char>>)>::empty()
            } else {
                seq![field_error("email"@, "Invalid email format"@)]
            };
            let n = if length_within(self.name@, 3, 50) {
                Seq::<(Seq<char>, Seq<Seq<char>>)>::empty()
            } else {
                seq![field_error("name"@, "Name must be between 3 and 50 characters"@)]
            };
            let p = if length_within(self.password@, 6, 100) {
                Seq::<(Seq<char>, Seq<Seq<char>>)>::empty()
            } else {
                seq![field_error("password"@, "Password must be at least 6 characters"@)]
            };
            assert(after_email =~= e);
            assert(after_name =~= e + n);
            assert(errors@.map_values(|f: FieldErrors| f@) =~= e + n + p);
        }
        errors
    }

    /// The account to create from the form: the default account with the given name,
    /// e-mail and password, in the role `user`.
    pub fn into_user(self) -> (u: User)
        ensures
            u.name == self.name,
            u.email == self.email,
            u.password == Some(self.password),
            u.role@ == "user"@,
            u.defaults_besides_profile(),
    {
        let mut u = User::default();
        u.name = self.name;
        u.email = self.email;
        u.password = Some(self.password);
        u.role = text("user");
        u
    }
}

/// A request body that parsed and passed validation.
pub struct Validated<T>(pub T);

impl Validated<RegisterRequest> {
    /// Accepts a parsed sign-up form (`None` when the body was not valid JSON for it):
    /// an unparsed body is answered `400 Failed to parse JSON`, an invalid form `400`
    /// with its validation errors by field.
    pub fn from_parsed(parsed: Option<RegisterRequest>) -> (r: Result<
        Validated<RegisterRequest>,
        AppError,
    >)
        ensures
            parsed is None ==> (r matches Err(e) && e@ == message_error(
                ErrorKind::BadRequest,
                "Failed to parse JSON"@,
            )),
            parsed matches Some(req) ==> {
                let errors = register_errors(req.name@, req.email@, req.password@);
                &&& errors.len() == 0 ==> (r matches Ok(v) && v.0 == req)
                &&& errors.len() > 0 ==> (r matches Err(e) && e@ == (
                    ErrorKind::BadRequest,
                    DetailView::ValidationErrors(errors),
                ))
            },
            parsed matches Some(req) ==> (r is Ok <==> (email_valid(req.email@) && 3
                <= req.name@.len() <= 50 && 6 <= req.password@.len() <= 100)),
    {
        match parsed {
            None => Err(app_error(ErrorKind::BadRequest, "Failed to parse JSON")),
            Some(req) => {
                proof {
                    lemma_register_form_rules(req.name@, req.email@, req.password@);
                }
                let errors = req.validate();
                if errors.len() > 0 {
                    let e = error_with(ErrorKind::BadRequest, ErrorDetail::ValidationErrors(errors));
                    Err(e)
                } else {
                    Ok(Validated(req))
                }
            },
        }
    }
}

} // verus!
