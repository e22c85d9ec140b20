//! The request normalizer: turns one contact-form submission into a fully
//! formed outbound email, applying the defaulting and formatting rules.

use vstd::prelude::*;
use vstd::string::*;
use crate::text::{is_other_sentinel, service_is_other, trim, trim_str};

verus! {

/// One contact-form submission, as the edge layer hands it in. The
/// required fields arrive verbatim; `service` may be absent.
pub struct Payload {
    pub name: String,
    pub email: String,
    pub message: String,
    pub service: Option<String>,
    pub company: String,
}

/// The fully formed outbound email. Recipient and sender address are
/// fixed; the remaining fields are derived from one submission.
pub struct OutboundEmail {
    pub to_email: String,
    pub to_name: String,
    pub bcc: Option<String>,
    pub from_email: String,
    pub from_name: String,
    pub reply_to_email: String,
    pub reply_to_name: String,
    pub subject: String,
    pub content: String,
}

/// The single dash that stands in for an empty message body; the provider
/// must never receive an empty content value.
pub open spec fn placeholder() -> Seq<char> {
    seq!['\u{2013}']
}

/// The content value: the message trimmed of white space, or the
/// placeholder dash when nothing remains.
pub open spec fn content_of(message: Seq<char>) -> Seq<char> {
    if trim(message).len() > 0 {
        trim(message)
    } else {
        placeholder()
    }
}

/// The characters of an optional field, absence meaning empty.
pub open spec fn field_chars(s: Option<String>) -> Seq<char> {
    match s {
        Option::Some(x) => x@,
        Option::None => Seq::empty(),
    }
}

/// The subject line: it names the requested service verbatim unless none
/// was given, only white space was given, or the service is the "other"
/// sentinel up to letter case.
pub open spec fn subject_of(service: Seq<char>) -> Seq<char> {
    if trim(service).len() > 0 && !is_other_sentinel(service) {
        "Mainmatter inquiry for "@ + service
    } else {
        "Mainmatter inquiry"@
    }
}

/// The sender display name: the submitter's name, the trimmed company in
/// parentheses when one was given, and the site suffix.
pub open spec fn sender_name_of(name: Seq<char>, company: Seq<char>) -> Seq<char> {
    if trim(company).len() > 0 {
        name + " ("@ + trim(company) + ") via mainmatter.com"@
    } else {
        name + " via mainmatter.com"@
    }
}

/// Applies the message-defaulting rule of `content_of`.
pub fn normalize_message(message: &str) -> (r: String)
    ensures
        r@ == content_of(message@),
{
    let t = trim_str(message);
    if t.as_str().unicode_len() > 0 {
        t
    } else {
        let dash = String::from_str("\u{2013}");
        proof {
            reveal_strlit("\u{2013}");
            assert(dash@ =~= placeholder());
        }
        dash
    }
}

/// Derives the subject line of `subject_of` from the optional service.
pub fn build_subject(service: &Option<String>) -> (r: String)
    ensures
        r@ == subject_of(field_chars(*service)),
{
    match service {
        Option::Some(s) => {
            let t = trim_str(s.as_str());
            if t.as_str().unicode_len() > 0 && !service_is_other(s.as_str()) {
                let mut out = String::from_str("Mainmatter inquiry for ");
                out.append(s.as_str());
                out
            } else {
                String::from_str("Mainmatter inquiry")
            }
        },
        Option::None => String::from_str("Mainmatter inquiry"),
    }
}

/// Derives the sender display name of `sender_name_of`.
pub fn build_sender_name(name: &str, company: &str) -> (r: String)
    ensures
        r@ == sender_name_of(name@, company@),
{
    let c = trim_str(company);
    let mut out = String::from_str(name);
    if c.as_str().unicode_len() > 0 {
        out.append(" (");
        out.append(c.as_str());
        out.append(") via mainmatter.com");
    } else {
        out.append(" via mainmatter.com");
    }
    out
}

/// Builds the outbound email for one submission: fixed recipient and
/// sender address, the derived sender name, subject and content, the
/// submitter as reply-to, and the configured hidden copy, if any, attached
/// unconditionally.
pub fn build_payload(p: Payload, bcc: Option<String>) -> (e: OutboundEmail)
    ensures
        e.to_email@ == "contact@mainmatter.com"@,
        e.to_name@ == "Mainmatter"@,
        e.from_email@ == "no-reply@mainmatter.com"@,
        e.from_name@ == sender_name_of(p.name@, p.company@),
        e.reply_to_email@ == p.email@,
        e.reply_to_name@ == p.name@,
        e.subject@ == subject_of(field_chars(p.service)),
        e.content@ == content_of(p.message@),
        e.bcc == bcc,
{
    let subject = build_subject(&p.service);
    let from_name = build_sender_name(p.name.as_str(), p.company.as_str());
    let content = normalize_message(p.message.as_str());
    OutboundEmail {
        to_email: String::from_str("contact@mainmatter.com"),
        to_name: String::from_str("Mainmatter"),
        bcc,
        from_email: String::from_str("no-reply@mainmatter.com"),
        from_name,
        reply_to_email: p.email,
        reply_to_name: p.name,
        subject,
        content,
    }
}

/// The content value handed to the provider is never empty: it is either
/// the non-empty trimmed message or the placeholder dash.
pub proof fn lemma_content_never_empty(message: Seq<char>)
    ensures
        content_of(message).len() > 0,
{
}

/// The subject line is never empty: both of its forms begin with the
/// fixed inquiry text.
pub proof fn lemma_subject_never_empty(service: Seq<char>)
    ensures
        subject_of(service).len() > 0,
{
    reveal_strlit("Mainmatter inquiry");
    reveal_strlit("Mainmatter inquiry for ");
}

/// The sender display name always ends in the site suffix
/// " via mainmatter.com", whatever the submission held.
pub proof fn lemma_sender_name_suffix(name: Seq<char>, company: Seq<char>)
    ensures
        sender_name_of(name, company).len() >= " via mainmatter.com"@.len(),
        sender_name_of(name, company).skip(
            sender_name_of(name, company).len() - " via mainmatter.com"@.len(),
        ) == " via mainmatter.com"@,
{
    reveal_strlit(" via mainmatter.com");
    reveal_strlit(") via mainmatter.com");
    reveal_strlit(" (");
    let suffix = " via mainmatter.com"@;
    let s = sender_name_of(name, company);
    if trim(company).len() > 0 {
        assert(s.skip(s.len() - suffix.len()) =~= suffix);
    } else {
        assert(s.skip(s.len() - suffix.len()) =~= suffix);
    }
}

} // verus!
