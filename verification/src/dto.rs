//! Request and response shapes at the subsystem's edge, with their field
//! validation rules: username length 3 to 255, a well-formed email
//! address, password length at least 6 — all counted in characters.

use vstd::prelude::*;
use vstd::string::StrSliceExecFns;
use crate::models::UserResponse;
use crate::providers::{is_valid_email, check_email};

verus! {

/// A request to create an account.
pub struct RegisterRequest {
    /// 3 to 255 characters.
    pub username: String,
    /// Must have the shape of an email address.
    pub email: String,
    /// At least 6 characters.
    pub password: String,
}

/// A request to log in.
pub struct LoginRequest {
    /// Must have the shape of an email address.
    pub email: String,
    /// At least 6 characters.
    pub password: String,
}

/// What a successful login returns to the client: a bearer token and the
/// public view of the account.
pub struct AuthResponse {
    pub token: String,
    pub user: UserResponse,
}

/// A request to move a task to a named status.
pub struct UpdateTaskStatusRequest {
    pub status: String,
}

/// A request to switch notification delivery on or off.
pub struct UpdateNotificationPreferencesRequest {
    pub notification_enabled: bool,
}

/// One page of a listing.
pub struct PaginatedResponse<T> {
    pub data: Vec<T>,
    pub total: i64,
    pub page: u32,
    pub limit: u32,
    pub total_pages: u32,
}

/// The validation rule for a registration request.
pub open spec fn spec_register_valid(req: RegisterRequest) -> bool {
    &&& 3 <= req.username@.len() <= 255
    &&& is_valid_email(req.email@)
    &&& req.password@.len() >= 6
}

/// The validation rule for a login request.
pub open spec fn spec_login_valid(req: LoginRequest) -> bool {
    &&& is_valid_email(req.email@)
    &&& req.password@.len() >= 6
}

impl RegisterRequest {
    /// Whether every field obeys its rule.
    pub fn validate(&self) -> (r: bool)
        ensures
            r == spec_register_valid(*self),
    {
        let ulen = self.username.as_str().unicode_len();
        if ulen < 3 || ulen > 255 {
            return false;
        }
        if !check_email(self.email.as_str()) {
            return false;
        }
        self.password.as_str().unicode_len() >= 6
    }
}

impl LoginRequest {
    /// Whether every field obeys its rule.
    pub fn validate(&self) -> (r: bool)
        ensures
            r == spec_login_valid(*self),
    {
        if !check_email(self.email.as_str()) {
            return false;
        }
        self.password.as_str().unicode_len() >= 6
    }
}

impl<T> PaginatedResponse<T> {
    /// Assemble a page: `total_pages` is `total / limit` rounded up, and
    /// zero when nothing matched.
    pub fn new(data: Vec<T>, total: i64, page: u32, limit: u32) -> (r: PaginatedResponse<T>)
        requires
            limit >= 1,
            0 <= total <= u32::MAX,
        ensures
            r.data == data,
            r.total == total,
            r.page == page,
            r.limit == limit,
            r.total_pages == (total as int + limit as int - 1) / (limit as int),
    {
        let t = total as u64;
        let l = limit as u64;
        let pages = (t + l - 1) / l;
        proof {
            assert((t as int + l as int - 1) / (l as int) <= t as int) by (nonlinear_arith)
                requires
                    t >= 0 && l >= 1,
            ;
        }
        let r = PaginatedResponse {
            data,
            total,
            page,
            limit,
            total_pages: pages as u32,
        };
        r
    }
}

} // verus!
