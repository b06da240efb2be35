use vstd::prelude::*;
use vstd::std_specs::cmp::PartialEqSpecImpl;

verus! {

/// The host name of an SMTP server.
#[derive(Debug, Hash)]
pub struct SmtpServer(String);

impl View for SmtpServer {
    type V = Seq<char>;

    closed spec fn view(&self) -> Seq<char> {
        self.0@
    }
}

impl SmtpServer {
    /// The SMTP server of Gmail.
    pub fn gmail() -> (server: Self)
        ensures
            server@ == "smtp.gmail.com"@,
    {
        SmtpServer("smtp.gmail.com".to_owned())
    }

    /// The server with the given host name. Every text is accepted.
    pub fn from_str(host: &str) -> (server: Self)
        ensures
            server@ == host@,
    {
        SmtpServer(host.to_owned())
    }

    /// The host name.
    pub fn as_str(&self) -> (host: &str)
        ensures
            host@ == self@,
    {
        self.0.as_str()
    }

    /// The host name, as the server is displayed.
    pub fn to_string(&self) -> (host: String)
        ensures
            host@ == self@,
    {
        self.0.clone()
    }
}

impl Default for SmtpServer {
    fn default() -> (server: Self)
        ensures
            server@ == "smtp.gmail.com"@,
    {
        SmtpServer::gmail()
    }
}

impl Clone for SmtpServer {
    fn clone(&self) -> (copy: Self)
        ensures
            copy@ == self@,
    {
        SmtpServer(self.0.clone())
    }
}

impl PartialEq for SmtpServer {
    fn eq(&self, other: &Self) -> (equal: bool) {
        self.0 == other.0
    }
}

impl Eq for SmtpServer {

}

impl PartialEqSpecImpl for SmtpServer {
    open spec fn obeys_eq_spec() -> bool {
        true
    }

    open spec fn eq_spec(&self, other: &Self) -> bool {
        self@ == other@
    }
}

} // verus!
