//! The user handlers: who may act, and the replies they give.

use crate::api::{reply, Reply};
use crate::services::user_service::UserServiceError;
use crate::text::{concat2, str_eq};
use vstd::prelude::*;

verus! {

/// Who asks to delete their profile: `None` without a session, `Some(None)`
/// with a session that holds no id; the id to delete otherwise.
pub fn del_user_by_id(identity: Option<Option<String>>) -> (r: Result<String, Reply>)
    ensures
        match identity {
            Some(Some(id)) => r == Ok::<String, Reply>(id),
            Some(None) => r matches Err(e) && e.status == 403 && e.body@
                == "Login to delete profile"@,
            None => r matches Err(e) && e.status == 400 && e.body@
                == "Please login again. Your sesison has been deleted."@,
        },
{
    match identity {
        Some(Some(id)) => Ok(id),
        Some(None) => Err(reply(403, "Login to delete profile")),
        None => Err(reply(400, "Please login again. Your sesison has been deleted.")),
    }
}

/// The reply once the deletion request was recorded (the session is then
/// ended): 200 `success login again in 1hour to cancel.`; a failure is passed on.
pub fn deletion_requested(requested: Result<(), UserServiceError>) -> (r: Result<
    Reply,
    UserServiceError,
>)
    ensures
        match requested {
            Ok(_) => r matches Ok(rep) && rep.status == 200 && rep.body@
                == "success login again in 1hour to cancel."@,
            Err(e) => r == Err::<Reply, UserServiceError>(e),
        },
{
    match requested {
        Ok(_) => Ok(reply(200, "success login again in 1hour to cancel.")),
        Err(e) => Err(e),
    }
}

/// Whether the logged-in user may change the password of the user in the
/// path: only their own; otherwise the 403 reply `please login first`.
pub fn update_password(path_user_id: &str, identity_id: &str) -> (r: Result<(), Reply>)
    ensures
        r is Ok <==> path_user_id@ == identity_id@,
        r matches Err(e) ==> e.status == 403 && e.body@ == "please login first"@,
{
    if str_eq(path_user_id, identity_id) {
        Ok(())
    } else {
        Err(reply(403, "please login first"))
    }
}

/// The reply once the password of `user_id` was updated: 200 `user deleted
/// with id <user_id>` (that text, as the handler writes it); a failure is
/// passed on.
pub fn password_updated(user_id: &str, updated: Result<(), UserServiceError>) -> (r: Result<
    Reply,
    UserServiceError,
>)
    ensures
        match updated {
            Ok(_) => r matches Ok(rep) && rep.status == 200 && rep.body@
                == "user deleted with id "@ + user_id@,
            Err(e) => r == Err::<Reply, UserServiceError>(e),
        },
{
    match updated {
        Ok(_) => Ok(Reply { status: 200, body: concat2("user deleted with id ", user_id) }),
        Err(e) => Err(e),
    }
}

} // verus!
