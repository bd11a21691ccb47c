//! Who is asking: the user of a session, the client built from it, and
//! whether a request may go on.

use vstd::prelude::*;
use vstd::string::StringExecFns;
use crate::errors::{ClientError, texts};

verus! {

/// The id of a logged-in user, as a 128-bit UUID value.
#[derive(Clone, Copy, Debug, PartialEq, Eq, Structural)]
pub struct UserId(pub u128);

/// A logged-in user together with the ids of the user's roles.
#[derive(Clone, Debug)]
pub struct Client {
    pub user_id: u128,
    pub roles: Vec<String>,
}

/// The user of a session, from the result of reading the session: a failed
/// read is an unexpected error under the context "Session Error" (with the
/// read's cause chain after it), and a session without a user is refused.
pub fn session_user_id(lookup: Result<Option<u128>, Vec<String>>) -> (r: Result<u128, ClientError>)
    ensures
        lookup matches Ok(Some(id)) ==> r == Ok::<u128, ClientError>(id),
        lookup matches Ok(None) ==> r matches Err(ClientError::MissingUserSession),
        lookup matches Err(c) ==> (r matches Err(ClientError::UnexpectedError(e)) && texts(e@) == seq![
            "Session Error"@,
        ] + texts(c@)),
{
    match lookup {
        Ok(Some(id)) => Ok(id),
        Ok(None) => Err(ClientError::MissingUserSession),
        Err(c) => {
            let mut chain: Vec<String> = Vec::new();
            chain.push(String::from_str("Session Error"));
            let mut i: usize = 0;
            while i < c.len()
                invariant
                    i <= c@.len(),
                    texts(chain@) == seq!["Session Error"@] + texts(c@.take(i as int)),
                decreases c.len() - i,
            {
                let ghost before = chain@;
                chain.push(c[i].clone());
                proof {
                    assert(texts(chain@) =~= texts(before).push(c@[i as int]@));
                    assert(texts(c@.take(i + 1)) =~= texts(c@.take(i as int)).push(c@[i as int]@));
                    assert(texts(chain@) =~= seq!["Session Error"@] + texts(c@.take(i + 1)));
                }
                i = i + 1;
            }
            proof {
                assert(c@.take(c@.len() as int) =~= c@);
            }
            Err(ClientError::UnexpectedError(chain))
        },
    }
}

impl Client {
    /// The client of a logged-in user, from the result of looking up the
    /// user's roles; a failed lookup is an unexpected error with its chain.
    pub fn from_roles(user_id: u128, roles: Result<Vec<String>, Vec<String>>) -> (r: Result<
        Client,
        ClientError,
    >)
        ensures
            roles matches Ok(v) ==> (r matches Ok(cl) && cl.user_id == user_id && cl.roles@ == v@),
            roles matches Err(c) ==> (r matches Err(ClientError::UnexpectedError(e)) && e@ == c@),
    {
        match roles {
            Ok(v) => Ok(Client { user_id, roles: v }),
            Err(c) => Err(ClientError::UnexpectedError(c)),
        }
    }
}

/// What happens to a request that needs a logged-in user.
pub enum Admission {
    /// The request goes on, on behalf of this user.
    Proceed(UserId),
    /// The request is answered with a redirection, for a reason.
    Redirect { location: String, reason: String },
}

/// Lets a request go on for a logged-in user; without one, redirects to the
/// login page because "The user has not logged in".
pub fn admission_for(user: Option<u128>) -> (r: Admission)
    ensures
        user matches Some(id) ==> r == Admission::Proceed(UserId(id)),
        user is None ==> (r matches Admission::Redirect { location, reason } && location@
            == "/login"@ && reason@ == "The user has not logged in"@),
{
    match user {
        Some(id) => Admission::Proceed(UserId(id)),
        None => Admission::Redirect {
            location: String::from_str("/login"),
            reason: String::from_str("The user has not logged in"),
        },
    }
}

} // verus!
