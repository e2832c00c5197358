//! What an e-mail delivery sends, decided before the mail server is reached.
use vstd::prelude::*;
use vstd::string::*;
use crate::notify::config::EmailConfig;
use crate::notify::error::{invalid, NotificationMessage, NotifyError, NotifyErrorView};
use crate::text::{
    ascii_lower, concat_str, is_blank, is_blank_str, list_items, split_list, str_eq,
    to_ascii_lowercase, trim, trim_str,
};

verus! {

/// Why `lettre` refuses an address, as its error's message; `None` when it
/// accepts the address.
pub uninterp spec fn spec_address_error(address: Seq<char>) -> Option<Seq<char>>;

pub open spec fn opt_string_view(r: Option<String>) -> Option<Seq<char>> {
    match r {
        Some(s) => Some(s@),
        None => None,
    }
}

/// `address.parse::<lettre::Address>()`: `None` when the crate accepts the
/// address, else the text of its `AddressError`. The contract names the
/// result, a function of the address alone.
#[verifier::external_body]
fn address_error(address: &str) -> (r: Option<String>)
    ensures
        opt_string_view(r) == spec_address_error(address@),
{
    match address.parse::<lettre::Address>() {
        Ok(_) => None,
        Err(e) => Some(e.to_string()),
    }
}

/// A mail address with an optional display name.
#[derive(Debug, Clone)]
pub struct Mailbox {
    pub name: Option<String>,
    pub email: String,
}

pub struct MailboxView {
    pub name: Option<Seq<char>>,
    pub email: Seq<char>,
}

impl Mailbox {
    pub open spec fn view(&self) -> MailboxView {
        MailboxView { name: opt_string_view(self.name), email: self.email@ }
    }
}

/// The mailbox for a configured address and name; `label` names the role in
/// the complaint about an address that `lettre` refuses.
pub open spec fn mailbox_spec(address: Seq<char>, name: Seq<char>, label: Seq<char>) -> Result<MailboxView, Seq<char>> {
    mailbox_checked_spec(trim(address), name, label, spec_address_error(trim(address)))
}

/// The mailbox for a trimmed address, given the complaint `lettre` has about it.
pub open spec fn mailbox_checked_spec(
    a: Seq<char>,
    name: Seq<char>,
    label: Seq<char>,
    problem: Option<Seq<char>>,
) -> Result<MailboxView, Seq<char>> {
    match problem {
        Some(e) => Err("invalid "@ + label + " address: "@ + e),
        None => Ok(
            MailboxView {
                name: if is_blank(name) {
                    None
                } else {
                    Some(trim(name))
                },
                email: a,
            },
        ),
    }
}

pub open spec fn mailbox_result(r: Result<Mailbox, NotifyError>) -> Result<MailboxView, NotifyErrorView> {
    match r {
        Ok(m) => Ok(m.view()),
        Err(e) => Err(e.view()),
    }
}

pub open spec fn invalid_result<T>(r: Result<T, Seq<char>>) -> Result<T, NotifyErrorView> {
    match r {
        Ok(t) => Ok(t),
        Err(m) => Err(NotifyErrorView::InvalidConfig(m)),
    }
}

pub fn mailbox(address: &str, name: &str, label: &str) -> (r: Result<Mailbox, NotifyError>)
    ensures
        mailbox_result(r) == invalid_result(mailbox_spec(address@, name@, label@)),
{
    let a = trim_str(address);
    let problem = address_error(a);
    mailbox_checked(a, name, label, problem)
}

/// The mailbox for a trimmed address, given the complaint `lettre` has
/// about it.
pub fn mailbox_checked(a: &str, name: &str, label: &str, problem: Option<String>) -> (r: Result<Mailbox, NotifyError>)
    ensures
        mailbox_result(r) == invalid_result(mailbox_checked_spec(a@, name@, label@, opt_string_view(problem))),
{
    match problem {
        Some(e) => {
            let mut msg = concat_str("invalid ", label);
            msg.append(" address: ");
            msg.append(e.as_str());
            Err(invalid(msg))
        },
        None => {
            let name = if is_blank_str(name) {
                None
            } else {
                Some(trim_str(name).to_owned())
            };
            Ok(Mailbox { name, email: a.to_owned() })
        },
    }
}

/// The receivers, in order, or the complaint about the first bad address.
pub open spec fn receivers_spec(items: Seq<Seq<char>>) -> Result<Seq<MailboxView>, Seq<char>>
    decreases items.len(),
{
    if items.len() == 0 {
        Ok(seq![])
    } else {
        match receivers_spec(items.drop_last()) {
            Err(e) => Err(e),
            Ok(ms) => match mailbox_spec(items.last(), Seq::empty(), "receiver"@) {
                Err(e) => Err(e),
                Ok(m) => Ok(ms.push(m)),
            },
        }
    }
}

/// How the connection to the mail server is secured.
#[derive(Clone, Copy, Debug, PartialEq, Eq, Structural)]
pub enum SmtpSecurity {
    /// TLS from the first byte.
    ImplicitTls,
    /// A plain connection upgraded with STARTTLS, which is required.
    StartTls,
    /// No TLS.
    Plain,
}

/// Everything an e-mail delivery needs from the mail server's client.
#[derive(Debug, Clone)]
pub struct MailPlan {
    pub sender: Mailbox,
    pub receivers: Vec<Mailbox>,
    pub subject: String,
    pub body: String,
    /// The body is HTML rather than plain text.
    pub html: bool,
    pub host: String,
    pub port: u16,
    pub security: SmtpSecurity,
    /// Accept invalid certificates and host names.
    pub allow_insecure_tls: bool,
    /// User name and password, when either is given.
    pub credentials: Option<(String, String)>,
}

pub struct MailPlanView {
    pub sender: MailboxView,
    pub receivers: Seq<MailboxView>,
    pub subject: Seq<char>,
    pub body: Seq<char>,
    pub html: bool,
    pub host: Seq<char>,
    pub port: u16,
    pub security: SmtpSecurity,
    pub allow_insecure_tls: bool,
    pub credentials: Option<(Seq<char>, Seq<char>)>,
}

impl MailPlan {
    pub open spec fn view(&self) -> MailPlanView {
        MailPlanView {
            sender: self.sender.view(),
            receivers: self.receivers@.map_values(|m: Mailbox| m.view()),
            subject: self.subject@,
            body: self.body@,
            html: self.html,
            host: self.host@,
            port: self.port,
            security: self.security,
            allow_insecure_tls: self.allow_insecure_tls,
            credentials: match self.credentials {
                Some(c) => Some((c.0@, c.1@)),
                None => None,
            },
        }
    }
}

/// The characters that separate receiver addresses.
pub open spec fn receiver_separators() -> Seq<char> {
    seq![',', ';', '\n', '\r']
}

/// The message format: `Some(true)` for HTML, `Some(false)` for plain text.
pub open spec fn mail_format(format: Seq<char>) -> Option<bool> {
    let f = ascii_lower(trim(format));
    if f == ""@ || f == "plain"@ || f == "text"@ {
        Some(false)
    } else if f == "html"@ {
        Some(true)
    } else {
        None
    }
}

pub open spec fn mail_security(security: Seq<char>) -> Option<SmtpSecurity> {
    let s = ascii_lower(trim(security));
    if s == ""@ || s == "implicit_tls"@ || s == "tls"@ {
        Some(SmtpSecurity::ImplicitTls)
    } else if s == "starttls"@ {
        Some(SmtpSecurity::StartTls)
    } else if s == "none"@ {
        Some(SmtpSecurity::Plain)
    } else {
        None
    }
}

/// The e-mail delivery for a configuration and a message, or the complaint
/// about the configuration, checked in this order: sender, receivers, that
/// there is a receiver, the format, the security.
pub open spec fn mail_plan_spec(c: EmailConfig, m: NotificationMessage) -> Result<MailPlanView, Seq<char>> {
    match mailbox_spec(c.sender_address@, c.sender_name@, "sender"@) {
        Err(e) => Err(e),
        Ok(sender) => match receivers_spec(list_items(c.receiver_addresses@, receiver_separators())) {
            Err(e) => Err(e),
            Ok(receivers) => if receivers.len() == 0 {
                Err("at least one email receiver is required"@)
            } else {
                match mail_format(c.message_format@) {
                    None => Err("unsupported email format: "@ + ascii_lower(trim(c.message_format@))),
                    Some(html) => match mail_security(c.smtp_security@) {
                        None => Err(
                            "unsupported SMTP security: "@ + ascii_lower(trim(c.smtp_security@)),
                        ),
                        Some(security) => Ok(
                            MailPlanView {
                                sender,
                                receivers,
                                subject: m.title@,
                                body: m.body@,
                                html,
                                host: trim(c.smtp_host@),
                                port: if c.smtp_port >= 1 {
                                    c.smtp_port
                                } else {
                                    1
                                },
                                security,
                                allow_insecure_tls: c.allow_insecure_tls,
                                credentials: if !is_blank(c.username@) || c.password@.len() > 0 {
                                    Some((trim(c.username@), c.password@))
                                } else {
                                    None
                                },
                            },
                        ),
                    },
                }
            },
        },
    }
}

pub open spec fn plan_result(r: Result<MailPlan, NotifyError>) -> Result<MailPlanView, NotifyErrorView> {
    match r {
        Ok(p) => Ok(p.view()),
        Err(e) => Err(e.view()),
    }
}

fn receivers(items: &Vec<String>) -> (r: Result<Vec<Mailbox>, NotifyError>)
    ensures
        match r {
            Ok(ms) => receivers_spec(items.deep_view()) == Ok::<Seq<MailboxView>, Seq<char>>(
                ms@.map_values(|m: Mailbox| m.view()),
            ),
            Err(e) => receivers_spec(items.deep_view()) matches Err(msg) && e.view()
                == NotifyErrorView::InvalidConfig(msg),
        },
{
    let mut out: Vec<Mailbox> = Vec::new();
    let mut i: usize = 0;
    assert(items.deep_view().take(0) =~= Seq::<Seq<char>>::empty());
    assert(out@.map_values(|m: Mailbox| m.view()) =~= Seq::<MailboxView>::empty());
    while i < items.len()
        invariant
            i <= items@.len(),
            receivers_spec(items.deep_view().take(i as int)) == Ok::<Seq<MailboxView>, Seq<char>>(
                out@.map_values(|m: Mailbox| m.view()),
            ),
        decreases items@.len() - i,
    {
        let ghost prefix = items.deep_view().take(i + 1);
        assert(prefix.drop_last() =~= items.deep_view().take(i as int));
        assert(prefix.last() == items@[i as int]@);
        let empty_name = String::new();
        let m = mailbox(items[i].as_str(), empty_name.as_str(), "receiver");
        match m {
            Ok(mb) => {
                let ghost before = out@;
                out.push(mb);
                assert(out@.map_values(|m: Mailbox| m.view()) =~= before.map_values(
                    |m: Mailbox| m.view(),
                ).push(mb.view()));
            },
            Err(e) => {
                proof {
                    lemma_receivers_error_prefix(items.deep_view(), i + 1);
                }
                return Err(e);
            },
        }
        i = i + 1;
    }
    assert(items.deep_view().take(items@.len() as int) =~= items.deep_view());
    Ok(out)
}

/// A complaint about a prefix of the receivers is the complaint about all.
proof fn lemma_receivers_error_prefix(items: Seq<Seq<char>>, k: int)
    requires
        0 <= k <= items.len(),
        receivers_spec(items.take(k)) is Err,
    ensures
        receivers_spec(items) == receivers_spec(items.take(k)),
    decreases items.len() - k,
{
    if k < items.len() {
        assert(items.drop_last().take(k) =~= items.take(k));
        lemma_receivers_error_prefix(items.drop_last(), k);
    } else {
        assert(items.take(k) =~= items);
    }
}

fn format_is_html(format: &str) -> (r: Result<bool, NotifyError>)
    ensures
        match r {
            Ok(h) => mail_format(format@) == Some(h),
            Err(e) => mail_format(format@) is None && e.view() == NotifyErrorView::InvalidConfig(
                "unsupported email format: "@ + ascii_lower(trim(format@)),
            ),
        },
{
    let f = to_ascii_lowercase(trim_str(format));
    let fs = f.as_str();
    if str_eq(fs, "") || str_eq(fs, "plain") || str_eq(fs, "text") {
        Ok(false)
    } else if str_eq(fs, "html") {
        Ok(true)
    } else {
        Err(invalid(concat_str("unsupported email format: ", fs)))
    }
}

fn security_of(security: &str) -> (r: Result<SmtpSecurity, NotifyError>)
    ensures
        match r {
            Ok(s) => mail_security(security@) == Some(s),
            Err(e) => mail_security(security@) is None && e.view()
                == NotifyErrorView::InvalidConfig(
                "unsupported SMTP security: "@ + ascii_lower(trim(security@)),
            ),
        },
{
    let s = to_ascii_lowercase(trim_str(security));
    let ss = s.as_str();
    if str_eq(ss, "") || str_eq(ss, "implicit_tls") || str_eq(ss, "tls") {
        Ok(SmtpSecurity::ImplicitTls)
    } else if str_eq(ss, "starttls") {
        Ok(SmtpSecurity::StartTls)
    } else if str_eq(ss, "none") {
        Ok(SmtpSecurity::Plain)
    } else {
        Err(invalid(concat_str("unsupported SMTP security: ", ss)))
    }
}

/// Decides the e-mail delivery for a configuration and a message.
pub fn plan_email(c: &EmailConfig, m: &NotificationMessage) -> (r: Result<MailPlan, NotifyError>)
    ensures
        plan_result(r) == invalid_result(mail_plan_spec(*c, *m)),
{
    let sender = mailbox(c.sender_address.as_str(), c.sender_name.as_str(), "sender")?;
    let seps: [char; 4] = [',', ';', '\n', '\r'];
    assert(seps@ =~= receiver_separators());
    let items = split_list(c.receiver_addresses.as_str(), &seps);
    let receivers = receivers(&items)?;
    if receivers.len() == 0 {
        return Err(invalid("at least one email receiver is required".to_owned()));
    }
    let html = format_is_html(c.message_format.as_str())?;
    let security = security_of(c.smtp_security.as_str())?;
    let credentials = if !is_blank_str(c.username.as_str()) || c.password.as_str().unicode_len() > 0 {
        Some((trim_str(c.username.as_str()).to_owned(), c.password.clone()))
    } else {
        None
    };
    let plan = MailPlan {
        sender,
        receivers,
        subject: m.title.clone(),
        body: m.body.clone(),
        html,
        host: trim_str(c.smtp_host.as_str()).to_owned(),
        port: if c.smtp_port >= 1 { c.smtp_port } else { 1 },
        security,
        allow_insecure_tls: c.allow_insecure_tls,
        credentials,
    };
    Ok(plan)
}

} // verus!
