//! The service layer's access rules: who the current user is and what they
//! may do. Storage itself is an asynchronous collaborator of the hosting
//! process; the rules here decide, the host fetches and stores.

use vstd::prelude::*;

use crate::config::Config;
use crate::errors::ServiceError;
use crate::user::{UserId, UserSummary, UserType};

verus! {

/// The service state shared by every request: the loaded configuration.
#[derive(Clone, Debug)]
pub struct CommonService {
    config: Config,
}

/// The service state of one request: the logged-in user, if any.
#[derive(Clone, Debug)]
pub struct CoreService {
    /// Current logined user.
    user: Option<UserSummary>,
}

impl CommonService {
    pub closed spec fn spec_config(&self) -> Config {
        self.config
    }

    pub fn new(config: Config) -> (r: Self)
        ensures
            r.spec_config() == config,
    {
        CommonService { config }
    }

    pub fn core_service(&self, user: Option<UserSummary>) -> (r: CoreService)
        ensures
            r.spec_user() == user,
    {
        CoreService { user }
    }

    pub fn config(&self) -> (r: &Config)
        ensures
            *r == self.spec_config(),
    {
        &self.config
    }
}

impl CoreService {
    pub closed spec fn spec_user(&self) -> Option<UserSummary> {
        self.user
    }

    /// The logged-in user, or an authentication error when nobody is.
    pub fn try_get_current_user(&self) -> (r: Result<&UserSummary, ServiceError>)
        ensures
            self.spec_user() matches Some(u) ==> r matches Ok(v) && *v == u,
            self.spec_user() is None ==> r == Err::<&UserSummary, ServiceError>(
                ServiceError::Auth { message: "Please login to continue!" },
            ),
    {
        if let Some(user) = self.user.as_ref() {
            Ok(user)
        } else {
            Err(ServiceError::Auth { message: "Please login to continue!" })
        }
    }

    /// Permit only a logged-in administrator.
    pub fn only_admin(&self) -> (r: Result<(), ServiceError>)
        ensures
            r is Ok <==> (self.spec_user() matches Some(u) && u.user_type is Admin),
            r is Err ==> r == Err::<(), ServiceError>(
                ServiceError::Auth { message: "Only admin can do!" },
            ),
    {
        let allowed = match self.user.as_ref() {
            Some(user) => user.is_admin(),
            None => false,
        };
        if !allowed {
            return Err(ServiceError::Auth { message: "Only admin can do!" });
        }
        Ok(())
    }

    /// Permit a logged-in administrator, or the user acting on their own id.
    pub fn only_admin_or_user(&self, user_id: UserId) -> (r: Result<(), ServiceError>)
        ensures
            r is Ok <==> (self.spec_user() matches Some(u) && (u.user_type is Admin || u.id
                == user_id)),
            r is Err ==> r == Err::<(), ServiceError>(
                ServiceError::Auth { message: "Only admin or user can do!" },
            ),
    {
        let allowed = match self.user.as_ref() {
            Some(user) => user.is_admin() || user.id == user_id,
            None => false,
        };
        if !allowed {
            return Err(ServiceError::Auth { message: "Only admin or user can do!" });
        }
        Ok(())
    }

    /// The type a newly created user receives: the first user of the system
    /// becomes the administrator, everyone after that a regular user.
    pub fn user_type_for_new_user(admin_exists: bool) -> (r: UserType)
        ensures
            r == if admin_exists {
                UserType::Regular
            } else {
                UserType::Admin
            },
    {
        if admin_exists {
            UserType::Regular
        } else {
            UserType::Admin
        }
    }
}

/// The state handed to every request handler by the hosting web layer.
#[derive(Clone, Debug)]
pub struct AppState {
    pub com: CommonService,
}

impl AppState {
    /// Shortcut for `self.com.core_service(user)`.
    pub fn core_service(&self, user: Option<UserSummary>) -> (r: CoreService)
        ensures
            r.spec_user() == user,
    {
        self.com.core_service(user)
    }
}

} // verus!

