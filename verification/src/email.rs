//! Greeting emails for clients: the wording of how long someone has been a
//! client, the values that the template receives, and what becomes of the
//! template engine's answer.
//!
//! The engine itself is called by the program that uses this module, between
//! `email_context` and `email_outcome`: rendering may run code that the
//! engine was handed from elsewhere, and nothing can be promised of it here.

use vstd::prelude::*;
use vstd::string::*;

verus! {

/// `tera::Context`, the values that a template is rendered with. What it
/// holds is spoken of through `context_keys` and `context_entries`.
#[verifier::external_type_specification]
#[verifier::external_body]
pub struct ExContext(tera::Context);

/// `tera::Error`, the failure of the template engine. Nothing is known of
/// what it holds.
#[verifier::external_type_specification]
#[verifier::external_body]
pub struct ExTeraError(tera::Error);

/// The keys under which a `tera::Context` holds a value, of whatever kind.
pub uninterp spec fn context_keys(context: tera::Context) -> Set<Seq<char>>;

/// The entries of a `tera::Context` whose value is a text, by key.
pub uninterp spec fn context_entries(context: tera::Context) -> Map<Seq<char>, Seq<char>>;

/// The name of the template that an email is rendered from.
pub const EMAIL_TEMPLATE: &'static str = "email.txt";

/// Why an email could not be formatted.
#[derive(Debug)]
pub enum EmailError {
    /// The template engine failed; the field holds its error, cause included.
    Render(tera::Error),
}

/// The character that stands for the decimal digit `d`.
pub open spec fn digit_char(d: nat) -> char
    recommends
        d < 10,
{
    ((48 + d) as u8) as char
}

/// The decimal numeral of `n`, most significant digit first, without
/// leading zeros.
pub open spec fn decimal_digits(n: nat) -> Seq<char>
    decreases n,
{
    if n < 10 {
        seq![digit_char(n)]
    } else {
        decimal_digits(n / 10).push(digit_char(n % 10))
    }
}

/// How long someone has been a client, in words: `1 year` for one year, and
/// the number followed by ` years` otherwise.
pub open spec fn duration_text(years_as_client: u32) -> Seq<char> {
    if years_as_client == 1 {
        "1 year"@
    } else {
        decimal_digits(years_as_client as nat) + " years"@
    }
}

/// A context without values.
pub open spec fn no_entries() -> Map<Seq<char>, Seq<char>> {
    Map::empty()
}

/// The values that the email template receives: the client's name, the
/// duration in words and the sender's name.
pub open spec fn email_entries(
    name: Seq<char>,
    years_as_client: u32,
    sender: Seq<char>,
) -> Map<Seq<char>, Seq<char>> {
    no_entries()
        .insert("name"@, name)
        .insert("years_as_client"@, duration_text(years_as_client))
        .insert("sender"@, sender)
}

/// `tera::Context::new`: the new context holds no value under any key.
#[verifier::external_body]
fn new_context() -> (context: tera::Context)
    ensures
        context_keys(context) == Set::<Seq<char>>::empty(),
        context_entries(context) == no_entries(),
{
    tera::Context::new()
}

/// `tera::Context::insert`, for a text value: afterwards the key stands for
/// that text, whether or not it stood for something before, and every other
/// key stands for what it stood for. No key but this one is added, and none
/// is taken away.
#[verifier::external_body]
fn insert_text(context: &mut tera::Context, key: &str, value: &str)
    ensures
        context_keys(*final(context)) == context_keys(*old(context)).insert(key@),
        context_entries(*final(context)) == context_entries(*old(context)).insert(key@, value@),
{
    context.insert(key, value);
}

/// The numeral of the decimal digit `d`.
fn digit_text(d: u32) -> (text: &'static str)
    requires
        d < 10,
    ensures
        text@ == seq![digit_char(d as nat)],
{
    proof {
        reveal_strlit("0");
        reveal_strlit("1");
        reveal_strlit("2");
        reveal_strlit("3");
        reveal_strlit("4");
        reveal_strlit("5");
        reveal_strlit("6");
        reveal_strlit("7");
        reveal_strlit("8");
        reveal_strlit("9");
    }
    let text = match d {
        0 => "0",
        1 => "1",
        2 => "2",
        3 => "3",
        4 => "4",
        5 => "5",
        6 => "6",
        7 => "7",
        8 => "8",
        _ => "9",
    };
    assert(text@ =~= seq![digit_char(d as nat)]);
    text
}

/// Appends the decimal numeral of `n` to `text`.
fn push_decimal(text: &mut String, n: u32)
    ensures
        final(text)@ == old(text)@ + decimal_digits(n as nat),
    decreases n,
{
    if n >= 10 {
        push_decimal(text, n / 10);
    }
    text.append(digit_text(n % 10));
    assert(text@ =~= old(text)@ + decimal_digits(n as nat));
}

/// Says in words how long someone has been a client.
pub fn normalized_duration(years_as_client: u32) -> (text: String)
    ensures
        text@ == duration_text(years_as_client),
{
    if years_as_client == 1 {
        String::from_str("1 year")
    } else {
        let mut text = String::new();
        push_decimal(&mut text, years_as_client);
        text.append(" years");
        text
    }
}

/// Builds the context that the email template is rendered with: it holds
/// the three values of `email_entries` and nothing else.
pub fn email_context(name: &str, years_as_client: u32, sender: &str) -> (context: tera::Context)
    ensures
        context_entries(context) == email_entries(name@, years_as_client, sender@),
        context_keys(context) == email_entries(name@, years_as_client, sender@).dom(),
{
    let duration = normalized_duration(years_as_client);
    let mut context = new_context();
    insert_text(&mut context, "name", name);
    insert_text(&mut context, "years_as_client", duration.as_str());
    insert_text(&mut context, "sender", sender);
    assert(context_keys(context) =~= email_entries(name@, years_as_client, sender@).dom());
    context
}

/// Turns what the template engine returned into the result of formatting:
/// the rendered text as it is, or the engine's error, unchanged, as an
/// `EmailError`.
pub fn email_outcome(rendered: Result<String, tera::Error>) -> (outcome: Result<String, EmailError>)
    ensures
        outcome is Ok <==> rendered is Ok,
        rendered is Ok ==> outcome->Ok_0 == rendered->Ok_0,
        rendered is Err ==> outcome->Err_0 == EmailError::Render(rendered->Err_0),
{
    match rendered {
        Ok(text) => Ok(text),
        Err(error) => Err(EmailError::Render(error)),
    }
}

} // verus!
