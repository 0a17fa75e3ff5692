use vstd::prelude::*;

verus! {

/// A type with no value: the error of an operation that cannot fail.
pub type Impossible = core::convert::Infallible;

/// Login token used to authenticate with Xen Orchestra's API
#[derive(Debug, Clone)]
pub struct Token(pub String);

impl Token {
    /// The token's text.
    pub fn to_string(&self) -> (r: String)
        ensures
            r@ == self.0@,
    {
        self.0.clone()
    }
}

impl std::str::FromStr for Token {
    type Err = Impossible;

    fn from_str(s: &str) -> (r: Result<Self, Self::Err>)
        ensures
            r matches Ok(t) && t.0@ == s@,
    {
        Ok(Token(s.to_string()))
    }
}

/// Email and password used to authenticate with Xen Orchestra's API.
///
/// Note that there is also the type [`Token`]
#[derive(Debug, Clone)]
pub struct EmailAndPassword {
    pub email: String,
    pub password: String,
}

/// Some type of credentials used to authenticate with Xen Orchestra's API.
///
/// A value of this type holds either a [`Token`] or an [`EmailAndPassword`]
#[derive(Debug)]
pub enum Credentials {
    Password(EmailAndPassword),
    Token(Token),
}

impl From<Token> for Credentials {
    fn from(val: Token) -> (r: Credentials) {
        Credentials::Token(val)
    }
}

impl vstd::std_specs::convert::FromSpecImpl<Token> for Credentials {
    open spec fn obeys_from_spec() -> bool {
        true
    }

    open spec fn from_spec(val: Token) -> Credentials {
        Credentials::Token(val)
    }
}

impl From<EmailAndPassword> for Credentials {
    fn from(val: EmailAndPassword) -> (r: Credentials) {
        Credentials::Password(val)
    }
}

impl vstd::std_specs::convert::FromSpecImpl<EmailAndPassword> for Credentials {
    open spec fn obeys_from_spec() -> bool {
        true
    }

    open spec fn from_spec(val: EmailAndPassword) -> Credentials {
        Credentials::Password(val)
    }
}

/// The named parameters of the sign-in call for some credentials: email and
/// password, or the token.
pub open spec fn sign_in_params_of(c: Credentials) -> Seq<(Seq<char>, Seq<char>)> {
    match c {
        Credentials::Password(p) => seq![("email"@, p.email@), ("password"@, p.password@)],
        Credentials::Token(t) => seq![("token"@, t.0@)],
    }
}

impl Credentials {
    /// The named parameters of the sign-in call, in order.
    pub fn into_sign_in_params(self) -> (r: Vec<(String, String)>)
        ensures
            r@.map_values(|e: (String, String)| (e.0@, e.1@)) == sign_in_params_of(self),
    {
        let mut r: Vec<(String, String)> = Vec::new();
        match self {
            Credentials::Password(EmailAndPassword { email, password }) => {
                r.push(("email".to_string(), email));
                r.push(("password".to_string(), password));
            },
            Credentials::Token(Token(token)) => {
                r.push(("token".to_string(), token));
            },
        }
        assert(r@.map_values(|e: (String, String)| (e.0@, e.1@)) =~= sign_in_params_of(self));
        r
    }
}

} // verus!
