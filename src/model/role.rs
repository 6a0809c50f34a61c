use vstd::prelude::*;

verus! {

/// What a role may do.
#[derive(Debug, Clone, Copy, PartialEq, Eq, Structural)]
pub enum Permission {
    GetUser,
    CreateUser,
    SendEmail,
    CreateNotice,
    FreeDownload,
    FreeInstall,
    IgnoreExp,
}

impl Permission {
    /// The permission's column name.
    pub fn name(&self) -> (r: String)
        ensures
            r@ == (match *self {
                Permission::GetUser => "get_user"@,
                Permission::CreateUser => "create_user"@,
                Permission::SendEmail => "send_email"@,
                Permission::CreateNotice => "create_notice"@,
                Permission::FreeDownload => "free_download"@,
                Permission::FreeInstall => "free_install"@,
                Permission::IgnoreExp => "ignore_exp"@,
            }),
    {
        match self {
            Permission::GetUser => String::from_str("get_user"),
            Permission::CreateUser => String::from_str("create_user"),
            Permission::SendEmail => String::from_str("send_email"),
            Permission::CreateNotice => String::from_str("create_notice"),
            Permission::FreeDownload => String::from_str("free_download"),
            Permission::FreeInstall => String::from_str("free_install"),
            Permission::IgnoreExp => String::from_str("ignore_exp"),
        }
    }
}

/// A role's id.
#[derive(Debug, Clone, Copy, PartialEq, Eq, Structural)]
pub enum RoleID {
    Admin,
    User,
    Vip,
}

impl RoleID {
    /// The role's id in the database.
    pub fn to_i32(&self) -> (r: i32)
        ensures
            r == (match *self {
                RoleID::Admin => 1i32,
                RoleID::User => 2i32,
                RoleID::Vip => 3i32,
            }),
    {
        match self {
            RoleID::Admin => 1,
            RoleID::User => 2,
            RoleID::Vip => 3,
        }
    }
}

} // verus!
