//! Connection settings for the search backend, with their defaults.
use vstd::prelude::*;

verus! {

pub const DEFAULT_PORT: u16 = 9200;

/// Settings for reaching one index; `C` is the backend's credential type.
pub struct IndexBuilder<C> {
    host: Option<String>,
    port: Option<u16>,
    index_name: String,
    do_certificate_validation: bool,
    credentials: Option<C>,
}

/// Sets the backend host from text of type `T`.
pub trait WithHost<T>: Sized {
    fn with_host(self, host: T) -> Self;
}

impl<C> IndexBuilder<C> {
    pub closed spec fn host_spec(&self) -> Option<Seq<char>> {
        match self.host {
            Some(h) => Some(h@),
            None => None,
        }
    }

    pub closed spec fn port_spec(&self) -> Option<u16> {
        self.port
    }

    pub closed spec fn index_name_spec(&self) -> Seq<char> {
        self.index_name@
    }

    pub closed spec fn validates_certificates(&self) -> bool {
        self.do_certificate_validation
    }

    pub closed spec fn credentials_spec(&self) -> Option<C> {
        self.credentials
    }

    /// Settings for index `index_name`, with default host and port, certificate
    /// validation on and no credentials.
    pub fn with_name(index_name: String) -> (r: Self)
        ensures
            r.host_spec() is None,
            r.port_spec() is None,
            r.index_name_spec() == index_name@,
            r.validates_certificates(),
            r.credentials_spec() is None,
    {
        IndexBuilder {
            host: None,
            port: None,
            index_name,
            do_certificate_validation: true,
            credentials: None,
        }
    }

    pub fn with_port(self, port: u16) -> (r: Self)
        ensures
            r.port_spec() == Some(port),
            r.host_spec() == self.host_spec(),
            r.index_name_spec() == self.index_name_spec(),
            r.validates_certificates() == self.validates_certificates(),
            r.credentials_spec() == self.credentials_spec(),
    {
        IndexBuilder { port: Some(port), ..self }
    }

    pub fn without_certificate_validation(self) -> (r: Self)
        ensures
            !r.validates_certificates(),
            r.port_spec() == self.port_spec(),
            r.host_spec() == self.host_spec(),
            r.index_name_spec() == self.index_name_spec(),
            r.credentials_spec() == self.credentials_spec(),
    {
        IndexBuilder { do_certificate_validation: false, ..self }
    }

    pub fn with_credentials(self, credentials: C) -> (r: Self)
        ensures
            r.credentials_spec() == Some(credentials),
            r.port_spec() == self.port_spec(),
            r.host_spec() == self.host_spec(),
            r.index_name_spec() == self.index_name_spec(),
            r.validates_certificates() == self.validates_certificates(),
    {
        IndexBuilder { credentials: Some(credentials), ..self }
    }

    /// The host set, or `localhost`.
    pub fn host(&self) -> (r: &str)
        ensures
            self.host_spec() matches Some(h) ==> r@ == h,
            self.host_spec() is None ==> r@ == "localhost"@,
    {
        match &self.host {
            Some(h) => h.as_str(),
            None => "localhost",
        }
    }

    /// The port set, or 9200.
    pub fn port(&self) -> (r: u16)
        ensures
            self.port_spec() matches Some(p) ==> r == p,
            self.port_spec() is None ==> r == DEFAULT_PORT,
    {
        match self.port {
            Some(p) => p,
            None => DEFAULT_PORT,
        }
    }

    pub fn index_name(&self) -> (r: &str)
        ensures
            r@ == self.index_name_spec(),
    {
        self.index_name.as_str()
    }

    pub fn certificate_validation(&self) -> (r: bool)
        ensures
            r == self.validates_certificates(),
    {
        self.do_certificate_validation
    }

    pub fn credentials(&self) -> (r: &Option<C>)
        ensures
            *r == self.credentials_spec(),
    {
        &self.credentials
    }
}

impl<C> WithHost<String> for IndexBuilder<C> {
    fn with_host(self, host: String) -> (r: Self)
        ensures
            r.host_spec() == Some(host@),
            r.port_spec() == self.port_spec(),
            r.index_name_spec() == self.index_name_spec(),
            r.validates_certificates() == self.validates_certificates(),
            r.credentials_spec() == self.credentials_spec(),
    {
        IndexBuilder { host: Some(host), ..self }
    }
}

impl<'a, C> WithHost<&'a str> for IndexBuilder<C> {
    fn with_host(self, host: &'a str) -> (r: Self)
        ensures
            r.host_spec() == Some(host@),
            r.port_spec() == self.port_spec(),
            r.index_name_spec() == self.index_name_spec(),
            r.validates_certificates() == self.validates_certificates(),
            r.credentials_spec() == self.credentials_spec(),
    {
        IndexBuilder { host: Some(host.to_string()), ..self }
    }
}

/// Whether an index listing names the index `name`.
pub fn has_index(names: &Vec<String>, name: &str) -> (r: bool)
    ensures
        r == exists|i: int| 0 <= i < names@.len() && (#[trigger] names@[i])@ == name@,
{
    let wanted = name.to_owned();
    let mut i: usize = 0;
    while i < names.len()
        invariant
            i <= names@.len(),
            wanted@ == name@,
            forall|k: int| 0 <= k < i ==> (#[trigger] names@[k])@ != name@,
        decreases names@.len() - i,
    {
        if names[i] == wanted {
            return true;
        }
        i = i + 1;
    }
    false
}

} // verus!
