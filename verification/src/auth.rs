//! The API key check that every gRPC request passes before it is served.
use vstd::prelude::*;

use crate::config::{ApiKey, AuthConfig};
use crate::status::{Code, RpcStatus};

verus! {

/// The `bearer` header of a request.
#[derive(Clone, Debug)]
pub enum BearerHeader {
    /// The request has no such header.
    Missing,
    /// The header is there but is not visible ASCII text.
    Unreadable,
    /// The header reads `token`.
    Token(String),
}

/// Whether one of the configured API keys has the token `token`.
pub open spec fn token_known(keys: Seq<ApiKey>, token: Seq<char>) -> bool {
    exists|i: int| 0 <= i < keys.len() && #[trigger] keys[i].token@ == token
}

/// Whether a request with the header `header` is let through: it must carry a readable
/// token, and that token must be a configured one while authentication is enabled.
pub open spec fn admitted(config: AuthConfig, header: BearerHeader) -> bool {
    match header {
        BearerHeader::Token(t) => !config.enabled || token_known(config.tokens@, t@),
        _ => false,
    }
}

/// The check of the API key of incoming requests.
#[derive(Clone, Debug)]
pub struct AuthInterceptor {
    pub auth_config: AuthConfig,
}

impl AuthInterceptor {
    /// Lets a request through, or refuses it with `Unauthenticated`.
    pub fn intercept(&self, header: &BearerHeader) -> (r: Result<(), RpcStatus>)
        ensures
            r is Ok <==> admitted(self.auth_config, *header),
            r matches Err(s) ==> s.code == Code::Unauthenticated && s.message@
                == "Unauthenticated"@,
    {
        match header {
            BearerHeader::Token(token) => {
                if !self.auth_config.enabled {
                    return Ok(());
                }
                let keys = &self.auth_config.tokens;
                let n = keys.len();
                let mut i: usize = 0;
                while i < n
                    invariant
                        n == keys@.len(),
                        keys@ == self.auth_config.tokens@,
                        *header == BearerHeader::Token(*token),
                        i <= n,
                        forall|j: int| 0 <= j < i ==> #[trigger] keys@[j].token@ != token@,
                    decreases n - i,
                {
                    if keys[i].token == *token {
                        assert(keys@[i as int].token@ == token@);
                        return Ok(());
                    }
                    i = i + 1;
                }
                Err(RpcStatus::new(Code::Unauthenticated, "Unauthenticated"))
            },
            _ => Err(RpcStatus::new(Code::Unauthenticated, "Unauthenticated")),
        }
    }
}

} // verus!
