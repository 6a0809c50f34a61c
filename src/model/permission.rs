use vstd::prelude::*;

verus! {

/// What a role may do.
#[derive(Debug, Clone, Copy, PartialEq, Eq, Structural)]
pub enum Permission {
    GetUser,
    CreateUser,
    SendEmail,
    CreateNotification,
    FreeDownload,
    IgnoreExp,
}

impl Permission {
    /// The permission's column name.
    pub fn name(&self) -> (r: String)
        ensures
            r@ == (match *self {
                Permission::GetUser => "get_user"@,
                Permission::CreateUser => "create_user"@,
                Permission::SendEmail => "send_email"@,
                Permission::CreateNotification => "create_notification"@,
                Permission::FreeDownload => "free_download"@,
                Permission::IgnoreExp => "ignore_exp"@,
            }),
    {
        match self {
            Permission::GetUser => String::from_str("get_user"),
            Permission::CreateUser => String::from_str("create_user"),
            Permission::SendEmail => String::from_str("send_email"),
            Permission::CreateNotification => String::from_str("create_notification"),
            Permission::FreeDownload => String::from_str("free_download"),
            Permission::IgnoreExp => String::from_str("ignore_exp"),
        }
    }
}

/// A role's id.
#[derive(Debug, Clone, Copy, PartialEq, Eq, Structural)]
pub enum RoleID {
    Admin,
    User,
}

impl RoleID {
    /// The role's id in the database.
    pub fn to_i32(&self) -> (r: i32)
        ensures
            r == (match *self {
                RoleID::Admin => 1i32,
                RoleID::User => 2i32,
            }),
    {
        match self {
            RoleID::Admin => 1,
            RoleID::User => 2,
        }
    }
}

} // verus!
