use vstd::prelude::*;

verus! {

/// Why a request was refused. Failures of the database, the network, the
/// token library and the counter store carry the message of the underlying
/// error.
#[derive(Clone, Debug, PartialEq, Eq)]
pub enum AppErr {
    Database(String),
    BadPassword,
    Io(String),
    Upstream(String),
    CreateTokenErr(String),
    SledErr(String),
    Conversion,
    PermissonDenied,
    UserNotFound,
    ManagerExists,
    SelfOperationProhibited,
    LoginErr(String),
    TokenInvalid(String),
    DatabaseUnhealth,
}

/// The HTTP status with which each error is answered.
pub open spec fn status_of(e: AppErr) -> u16 {
    match e {
        AppErr::Database(_) => 500,
        AppErr::BadPassword => 401,
        AppErr::Io(_) => 500,
        AppErr::Upstream(_) => 502,
        AppErr::CreateTokenErr(_) => 500,
        AppErr::SledErr(_) => 500,
        AppErr::Conversion => 500,
        AppErr::PermissonDenied => 403,
        AppErr::UserNotFound => 401,
        AppErr::ManagerExists => 409,
        AppErr::SelfOperationProhibited => 403,
        AppErr::LoginErr(_) => 401,
        AppErr::TokenInvalid(_) => 401,
        AppErr::DatabaseUnhealth => 500,
    }
}

/// The text with which each error is answered.
pub open spec fn message_of(e: AppErr) -> Seq<char> {
    match e {
        AppErr::Database(s) => "数据库出现错误: "@ + s@,
        AppErr::BadPassword => "密钥错误"@,
        AppErr::Io(s) => "io错误："@ + s@,
        AppErr::Upstream(s) => "上游接口请求失败: "@ + s@,
        AppErr::CreateTokenErr(s) => "创建token失败: "@ + s@,
        AppErr::SledErr(s) => "Sled数据库出现错误: "@ + s@,
        AppErr::Conversion => "数据转换出错: could not convert slice to array"@,
        AppErr::PermissonDenied => "权限不足"@,
        AppErr::UserNotFound => "用户不存在"@,
        AppErr::ManagerExists => "管理员已存在"@,
        AppErr::SelfOperationProhibited => "禁止对自己操作"@,
        AppErr::LoginErr(s) => "登录失败: "@ + s@,
        AppErr::TokenInvalid(s) => "token无效: "@ + s@,
        AppErr::DatabaseUnhealth => "数据库状态异常"@,
    }
}

impl AppErr {
    /// The HTTP status code of the answer.
    pub fn status_code(&self) -> (code: u16)
        ensures
            code == status_of(*self),
    {
        match self {
            AppErr::Database(_) => 500,
            AppErr::BadPassword => 401,
            AppErr::Io(_) => 500,
            AppErr::Upstream(_) => 502,
            AppErr::CreateTokenErr(_) => 500,
            AppErr::SledErr(_) => 500,
            AppErr::Conversion => 500,
            AppErr::PermissonDenied => 403,
            AppErr::UserNotFound => 401,
            AppErr::ManagerExists => 409,
            AppErr::SelfOperationProhibited => 403,
            AppErr::LoginErr(_) => 401,
            AppErr::TokenInvalid(_) => 401,
            AppErr::DatabaseUnhealth => 500,
        }
    }

    /// The text of the answer.
    pub fn message(&self) -> (text: String)
        ensures
            text@ == message_of(*self),
    {
        match self {
            AppErr::Database(s) => String::from_str("数据库出现错误: ").concat(s.as_str()),
            AppErr::BadPassword => String::from_str("密钥错误"),
            AppErr::Io(s) => String::from_str("io错误：").concat(s.as_str()),
            AppErr::Upstream(s) => String::from_str("上游接口请求失败: ").concat(s.as_str()),
            AppErr::CreateTokenErr(s) => String::from_str("创建token失败: ").concat(s.as_str()),
            AppErr::SledErr(s) => String::from_str("Sled数据库出现错误: ").concat(s.as_str()),
            AppErr::Conversion => String::from_str("数据转换出错: could not convert slice to array"),
            AppErr::PermissonDenied => String::from_str("权限不足"),
            AppErr::UserNotFound => String::from_str("用户不存在"),
            AppErr::ManagerExists => String::from_str("管理员已存在"),
            AppErr::SelfOperationProhibited => String::from_str("禁止对自己操作"),
            AppErr::LoginErr(s) => String::from_str("登录失败: ").concat(s.as_str()),
            AppErr::TokenInvalid(s) => String::from_str("token无效: ").concat(s.as_str()),
            AppErr::DatabaseUnhealth => String::from_str("数据库状态异常"),
        }
    }
}

} // verus!
