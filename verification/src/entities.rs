//! The rows of the tables that the services keep, as typed values.

use crate::json::{lemma_object_view, member_models, JsonModel, JsonValue};
use crate::text::{signed_decimal, signed_decimal_text};
use crate::values::{lemma_put_fresh, lookup, put, Values};
use vstd::prelude::*;

verus! {

/// Why a row is no entity.
#[derive(Debug, PartialEq, Eq)]
pub enum RowError {
    /// The row has no such column.
    ColumnNotFound(String),
    /// The value of the column is not of the type of the field.
    ColumnDecode(String),
}

pub enum RowErrorModel {
    ColumnNotFound(Seq<char>),
    ColumnDecode(Seq<char>),
}

impl View for RowError {
    type V = RowErrorModel;

    open spec fn view(&self) -> RowErrorModel {
        match self {
            RowError::ColumnNotFound(c) => RowErrorModel::ColumnNotFound(c@),
            RowError::ColumnDecode(c) => RowErrorModel::ColumnDecode(c@),
        }
    }
}

/// The 64-bit integer in a column of a row.
pub open spec fn read_int(row: Seq<(Seq<char>, JsonModel)>, column: Seq<char>) -> Result<
    i64,
    RowErrorModel,
> {
    match lookup(row, column) {
        None => Err(RowErrorModel::ColumnNotFound(column)),
        Some(JsonModel::Integer(n)) => if i64::MIN <= n <= i64::MAX {
            Ok(n as i64)
        } else {
            Err(RowErrorModel::ColumnDecode(column))
        },
        Some(_) => Err(RowErrorModel::ColumnDecode(column)),
    }
}

/// The text in a column of a row.
pub open spec fn read_text(row: Seq<(Seq<char>, JsonModel)>, column: Seq<char>) -> Result<
    Seq<char>,
    RowErrorModel,
> {
    match lookup(row, column) {
        None => Err(RowErrorModel::ColumnNotFound(column)),
        Some(JsonModel::Text(s)) => Ok(s),
        Some(_) => Err(RowErrorModel::ColumnDecode(column)),
    }
}

/// The boolean in a column of a row.
pub open spec fn read_bool(row: Seq<(Seq<char>, JsonModel)>, column: Seq<char>) -> Result<
    bool,
    RowErrorModel,
> {
    match lookup(row, column) {
        None => Err(RowErrorModel::ColumnNotFound(column)),
        Some(JsonModel::Bool(b)) => Ok(b),
        Some(_) => Err(RowErrorModel::ColumnDecode(column)),
    }
}

pub fn row_int(row: &Values, column: &str) -> (r: Result<i64, RowError>)
    ensures
        match r {
            Ok(n) => read_int(row@, column@) == Ok::<_, RowErrorModel>(n),
            Err(e) => read_int(row@, column@) == Err::<i64, _>(e@),
        },
{
    match row.get(column) {
        None => Err(RowError::ColumnNotFound(String::from_str(column))),
        Some(JsonValue::Int(n)) => Ok(*n),
        Some(JsonValue::UInt(n)) => if *n <= 0x7fff_ffff_ffff_ffff {
            Ok(*n as i64)
        } else {
            Err(RowError::ColumnDecode(String::from_str(column)))
        },
        Some(_) => Err(RowError::ColumnDecode(String::from_str(column))),
    }
}

pub fn row_text(row: &Values, column: &str) -> (r: Result<String, RowError>)
    ensures
        match r {
            Ok(s) => read_text(row@, column@) == Ok::<_, RowErrorModel>(s@),
            Err(e) => read_text(row@, column@) == Err::<Seq<char>, _>(e@),
        },
{
    match row.get(column) {
        None => Err(RowError::ColumnNotFound(String::from_str(column))),
        Some(JsonValue::Text(s)) => Ok(s.clone()),
        Some(_) => Err(RowError::ColumnDecode(String::from_str(column))),
    }
}

pub fn row_bool(row: &Values, column: &str) -> (r: Result<bool, RowError>)
    ensures
        match r {
            Ok(b) => read_bool(row@, column@) == Ok::<_, RowErrorModel>(b),
            Err(e) => read_bool(row@, column@) == Err::<bool, _>(e@),
        },
{
    match row.get(column) {
        None => Err(RowError::ColumnNotFound(String::from_str(column))),
        Some(JsonValue::Bool(b)) => Ok(*b),
        Some(_) => Err(RowError::ColumnDecode(String::from_str(column))),
    }
}

/// The views of keys.
pub open spec fn key_texts(keys: Seq<&str>) -> Seq<Seq<char>> {
    Seq::new(keys.len(), |i: int| keys[i]@)
}

/// The columns that the keys name, in the order of the keys.
pub open spec fn project(columns: Seq<(Seq<char>, JsonModel)>, keys: Seq<Seq<char>>) -> Seq<
    (Seq<char>, JsonModel),
>
    decreases keys.len(),
{
    if keys.len() == 0 {
        Seq::empty()
    } else {
        let rest = project(columns, keys.drop_last());
        match lookup(columns, keys.last()) {
            Some(value) => put(rest, keys.last(), value),
            None => rest,
        }
    }
}

/// The entries of `map` that the keys name, in the order of the keys.
pub fn project_values(map: &Values, keys: &Vec<&str>) -> (r: Values)
    ensures
        r@ == project(map@, key_texts(keys@)),
{
    let ghost all = key_texts(keys@);
    let mut out = Values::new();
    let mut i: usize = 0;
    assert(all.take(0) =~= Seq::empty());
    while i < keys.len()
        invariant
            i <= keys.len(),
            all == key_texts(keys@),
            out@ == project(map@, all.take(i as int)),
        decreases keys.len() - i,
    {
        proof {
            assert(all.take(i + 1).drop_last() =~= all.take(i as int));
            assert(all.take(i + 1).last() == keys@[i as int]@);
        }
        match map.get(keys[i]) {
            Some(value) => {
                out.insert(String::from_str(keys[i]), value.clone());
            },
            None => {},
        }
        i += 1;
    }
    assert(all.take(keys.len() as int) =~= all);
    out
}

pub open spec fn bool_text(b: bool) -> Seq<char> {
    if b {
        "true"@
    } else {
        "false"@
    }
}

fn bool_str(b: bool) -> (r: &'static str)
    ensures
        r@ == bool_text(b),
{
    if b {
        "true"
    } else {
        "false"
    }
}

/// What every entity of a table can do.
pub trait TableModel: Send + Sync {
    /// The columns of the entity and their values.
    spec fn columns(&self) -> Seq<(Seq<char>, JsonModel)>;

    /// Whether a row holds an entity.
    spec fn fits(row: Seq<(Seq<char>, JsonModel)>) -> bool where Self: Sized;

    /// The entity that a row holds. Each of its columns is in the row with
    /// its value.
    fn from_row(row: &Values) -> (r: Result<Self, RowError>) where Self: Sized
        ensures
            r is Ok <==> Self::fits(row@),
            r matches Ok(entity) ==> forall|i: int|
                0 <= i < entity.columns().len() ==> lookup(
                    row@,
                    (#[trigger] entity.columns()[i]).0,
                ) == Some(entity.columns()[i].1),
    ;

    /// The name of the table of the entity.
    spec fn table_name_text() -> Seq<char> where Self: Sized;

    /// The table of the entity.
    fn table_name() -> (r: &'static str) where Self: Sized
        ensures
            r@ == Self::table_name_text(),
    ;

    /// The entity written out for a reader.
    fn debug_string(&self) -> String;

    /// The entity as a JSON object of its columns.
    fn as_value(&self) -> (r: JsonValue)
        ensures
            r@ == JsonModel::Object(self.columns()),
    ;

    /// The columns of the entity, as the values of a request.
    fn as_hash_map(&self) -> (r: Values)
        ensures
            r@ == self.columns(),
    ;

    /// The columns that the keys name, in the order of the keys.
    fn get_keys_as_hashmap(&self, keys: Vec<&str>) -> (r: Values)
        ensures
            r@ == project(self.columns(), key_texts(keys@)),
    ;
}

// ---------------------------------------------------------------------------
// Users
// ---------------------------------------------------------------------------

#[derive(Debug, PartialEq, Eq)]
pub struct User {
    pub uid: i64,
    pub email: String,
    pub owner: bool,
    pub email_verified: bool,
    pub username: String,
}

pub struct UserModel {
    pub uid: i64,
    pub email: Seq<char>,
    pub owner: bool,
    pub email_verified: bool,
    pub username: Seq<char>,
}

impl View for User {
    type V = UserModel;

    open spec fn view(&self) -> UserModel {
        UserModel {
            uid: self.uid,
            email: self.email@,
            owner: self.owner,
            email_verified: self.email_verified,
            username: self.username@,
        }
    }
}

impl User {
    /// The user that a row holds, or the first column that fails.
    pub open spec fn read(row: Seq<(Seq<char>, JsonModel)>) -> Result<UserModel, RowErrorModel> {
        match read_int(row, "uid"@) {
            Err(e) => Err(e),
            Ok(uid) => match read_text(row, "email"@) {
                Err(e) => Err(e),
                Ok(email) => match read_bool(row, "owner"@) {
                    Err(e) => Err(e),
                    Ok(owner) => match read_bool(row, "email_verified"@) {
                        Err(e) => Err(e),
                        Ok(email_verified) => match read_text(row, "username"@) {
                            Err(e) => Err(e),
                            Ok(username) => Ok(
                                UserModel { uid, email, owner, email_verified, username },
                            ),
                        },
                    },
                },
            },
        }
    }

    pub open spec fn debug_text(self) -> Seq<char> {
        "User { uid: "@ + signed_decimal(self.uid as int) + ", email: "@ + self.email@
            + ", owner: "@ + bool_text(self.owner) + ", email_verified: "@ + bool_text(
            self.email_verified,
        ) + ", username: "@ + self.username@ + " }"@
    }

    proof fn lemma_keys()
        ensures
            "uid"@ != "email"@,
            "uid"@ != "owner"@,
            "uid"@ != "email_verified"@,
            "uid"@ != "username"@,
            "email"@ != "owner"@,
            "email"@ != "email_verified"@,
            "email"@ != "username"@,
            "owner"@ != "email_verified"@,
            "owner"@ != "username"@,
            "email_verified"@ != "username"@,
    {
        reveal_strlit("uid");
        reveal_strlit("email");
        reveal_strlit("owner");
        reveal_strlit("email_verified");
        reveal_strlit("username");
        assert("uid"@.len() == 3 && "email"@.len() == 5 && "owner"@.len() == 5
            && "email_verified"@.len() == 14 && "username"@.len() == 8);
        assert("email"@[0] != "owner"@[0]);
    }
}

impl TableModel for User {
    open spec fn fits(row: Seq<(Seq<char>, JsonModel)>) -> bool {
        User::read(row) is Ok
    }

    open spec fn columns(&self) -> Seq<(Seq<char>, JsonModel)> {
        seq![
            ("uid"@, JsonModel::Integer(self.uid as int)),
            ("email"@, JsonModel::Text(self.email@)),
            ("owner"@, JsonModel::Bool(self.owner)),
            ("email_verified"@, JsonModel::Bool(self.email_verified)),
            ("username"@, JsonModel::Text(self.username@)),
        ]
    }

    fn from_row(row: &Values) -> (r: Result<Self, RowError>)
        ensures
            match r {
                Ok(user) => User::read(row@) == Ok::<_, RowErrorModel>(user@),
                Err(e) => User::read(row@) == Err::<UserModel, _>(e@),
            },
    {
        let uid = match row_int(row, "uid") {
            Ok(v) => v,
            Err(e) => {
                return Err(e);
            },
        };
        let email = match row_text(row, "email") {
            Ok(v) => v,
            Err(e) => {
                return Err(e);
            },
        };
        let owner = match row_bool(row, "owner") {
            Ok(v) => v,
            Err(e) => {
                return Err(e);
            },
        };
        let email_verified = match row_bool(row, "email_verified") {
            Ok(v) => v,
            Err(e) => {
                return Err(e);
            },
        };
        let username = match row_text(row, "username") {
            Ok(v) => v,
            Err(e) => {
                return Err(e);
            },
        };
        Ok(User { uid, email, owner, email_verified, username })
    }

    open spec fn table_name_text() -> Seq<char> {
        "users"@
    }

    fn table_name() -> (r: &'static str) {
        "users"
    }

    fn debug_string(&self) -> (r: String)
        ensures
            r@ == self.debug_text(),
    {
        let mut out = String::from_str("User { uid: ");
        out.append(signed_decimal_text(self.uid).as_str());
        out.append(", email: ");
        out.append(self.email.as_str());
        out.append(", owner: ");
        out.append(bool_str(self.owner));
        out.append(", email_verified: ");
        out.append(bool_str(self.email_verified));
        out.append(", username: ");
        out.append(self.username.as_str());
        out.append(" }");
        out
    }

    fn as_value(&self) -> (r: JsonValue) {
        let mut members: Vec<(String, JsonValue)> = Vec::new();
        members.push((String::from_str("uid"), JsonValue::Int(self.uid)));
        members.push((String::from_str("email"), JsonValue::Text(self.email.clone())));
        members.push((String::from_str("owner"), JsonValue::Bool(self.owner)));
        members.push((String::from_str("email_verified"), JsonValue::Bool(self.email_verified)));
        members.push((String::from_str("username"), JsonValue::Text(self.username.clone())));
        proof {
            lemma_object_view(members);
            assert(member_models(members@) =~= self.columns());
        }
        JsonValue::Object(members)
    }

    fn as_hash_map(&self) -> (r: Values) {
        proof {
            User::lemma_keys();
        }
        let mut map = Values::new();
        proof {
            lemma_put_fresh(map@, "uid"@, JsonModel::Integer(self.uid as int));
        }
        map.insert(String::from_str("uid"), JsonValue::Int(self.uid));
        proof {
            lemma_put_fresh(map@, "email"@, JsonModel::Text(self.email@));
        }
        map.insert(String::from_str("email"), JsonValue::Text(self.email.clone()));
        proof {
            lemma_put_fresh(map@, "owner"@, JsonModel::Bool(self.owner));
        }
        map.insert(String::from_str("owner"), JsonValue::Bool(self.owner));
        proof {
            lemma_put_fresh(map@, "email_verified"@, JsonModel::Bool(self.email_verified));
        }
        map.insert(String::from_str("email_verified"), JsonValue::Bool(self.email_verified));
        proof {
            lemma_put_fresh(map@, "username"@, JsonModel::Text(self.username@));
        }
        map.insert(String::from_str("username"), JsonValue::Text(self.username.clone()));
        assert(map@ =~= self.columns());
        map
    }

    fn get_keys_as_hashmap(&self, keys: Vec<&str>) -> (r: Values) {
        let map = self.as_hash_map();
        project_values(&map, &keys)
    }
}

// ---------------------------------------------------------------------------
// Accounts
// ---------------------------------------------------------------------------

#[derive(Debug, PartialEq, Eq)]
pub struct AuthUser {
    pub uid: i64,
    pub email: String,
    pub email_verified: bool,
    pub username: String,
    pub password_hash: String,
}

pub struct AuthUserModel {
    pub uid: i64,
    pub email: Seq<char>,
    pub email_verified: bool,
    pub username: Seq<char>,
    pub password_hash: Seq<char>,
}

impl View for AuthUser {
    type V = AuthUserModel;

    open spec fn view(&self) -> AuthUserModel {
        AuthUserModel {
            uid: self.uid,
            email: self.email@,
            email_verified: self.email_verified,
            username: self.username@,
            password_hash: self.password_hash@,
        }
    }
}

impl AuthUser {
    /// The entity that a row holds, or the first column that fails.
    pub open spec fn read(row: Seq<(Seq<char>, JsonModel)>) -> Result<AuthUserModel, RowErrorModel> {
        match read_int(row, "uid"@) {
            Err(e) => Err(e),
            Ok(uid) => match read_text(row, "email"@) {
                Err(e) => Err(e),
                Ok(email) => match read_bool(row, "email_verified"@) {
                    Err(e) => Err(e),
                    Ok(email_verified) => match read_text(row, "username"@) {
                        Err(e) => Err(e),
                        Ok(username) => match read_text(row, "password_hash"@) {
                            Err(e) => Err(e),
                            Ok(password_hash) => Ok(AuthUserModel { uid, email, email_verified, username, password_hash }),
                        },
                    },
                },
            },
        }
    }

    pub open spec fn debug_text(self) -> Seq<char> {
        "AuthUser { uid: "@ + signed_decimal(self.uid as int) + ", email: "@ + self.email@ + ", email_verified: "@ + bool_text(self.email_verified) + ", username: "@ + self.username@ + ", password_hash: "@ + self.password_hash@ + " }"@
    }

    proof fn lemma_keys()
        ensures
            "uid"@ != "email"@,
            "uid"@ != "email_verified"@,
            "uid"@ != "username"@,
            "uid"@ != "password_hash"@,
            "email"@ != "email_verified"@,
            "email"@ != "username"@,
            "email"@ != "password_hash"@,
            "email_verified"@ != "username"@,
            "email_verified"@ != "password_hash"@,
            "username"@ != "password_hash"@,
    {
        reveal_strlit("uid");
        reveal_strlit("email");
        reveal_strlit("email_verified");
        reveal_strlit("username");
        reveal_strlit("password_hash");
        assert("uid"@.len() == 3);
        assert("email"@.len() == 5);
        assert("email_verified"@.len() == 14);
        assert("username"@.len() == 8);
        assert("password_hash"@.len() == 13);
    }
}

impl TableModel for AuthUser {
    open spec fn fits(row: Seq<(Seq<char>, JsonModel)>) -> bool {
        AuthUser::read(row) is Ok
    }

    open spec fn columns(&self) -> Seq<(Seq<char>, JsonModel)> {
        seq![
            ("uid"@, JsonModel::Integer(self.uid as int)),
            ("email"@, JsonModel::Text(self.email@)),
            ("email_verified"@, JsonModel::Bool(self.email_verified)),
            ("username"@, JsonModel::Text(self.username@)),
            ("password_hash"@, JsonModel::Text(self.password_hash@)),
        ]
    }

    fn from_row(row: &Values) -> (r: Result<Self, RowError>)
        ensures
            match r {
                Ok(entity) => AuthUser::read(row@) == Ok::<_, RowErrorModel>(entity@),
                Err(e) => AuthUser::read(row@) == Err::<AuthUserModel, _>(e@),
            },
    {
        let uid = match row_int(row, "uid") {
            Ok(v) => v,
            Err(e) => {
                return Err(e);
            },
        };
        let email = match row_text(row, "email") {
            Ok(v) => v,
            Err(e) => {
                return Err(e);
            },
        };
        let email_verified = match row_bool(row, "email_verified") {
            Ok(v) => v,
            Err(e) => {
                return Err(e);
            },
        };
        let username = match row_text(row, "username") {
            Ok(v) => v,
            Err(e) => {
                return Err(e);
            },
        };
        let password_hash = match row_text(row, "password_hash") {
            Ok(v) => v,
            Err(e) => {
                return Err(e);
            },
        };
        Ok(AuthUser { uid, email, email_verified, username, password_hash })
    }

    open spec fn table_name_text() -> Seq<char> {
        "auth_users"@
    }

    fn table_name() -> (r: &'static str) {
        "auth_users"
    }

    fn debug_string(&self) -> (r: String)
        ensures
            r@ == self.debug_text(),
    {
        let mut out = String::from_str("AuthUser { uid: ");
        out.append(signed_decimal_text(self.uid).as_str());
        out.append(", email: ");
        out.append(self.email.as_str());
        out.append(", email_verified: ");
        out.append(bool_str(self.email_verified));
        out.append(", username: ");
        out.append(self.username.as_str());
        out.append(", password_hash: ");
        out.append(self.password_hash.as_str());
        out.append(" }");
        out
    }

    fn as_value(&self) -> (r: JsonValue) {
        let mut members: Vec<(String, JsonValue)> = Vec::new();
        members.push((String::from_str("uid"), JsonValue::Int(self.uid)));
        members.push((String::from_str("email"), JsonValue::Text(self.email.clone())));
        members.push((String::from_str("email_verified"), JsonValue::Bool(self.email_verified)));
        members.push((String::from_str("username"), JsonValue::Text(self.username.clone())));
        members.push((String::from_str("password_hash"), JsonValue::Text(self.password_hash.clone())));
        proof {
            lemma_object_view(members);
            assert(member_models(members@) =~= self.columns());
        }
        JsonValue::Object(members)
    }

    fn as_hash_map(&self) -> (r: Values) {
        proof {
            AuthUser::lemma_keys();
        }
        let mut map = Values::new();
        proof {
            lemma_put_fresh(map@, "uid"@, JsonModel::Integer(self.uid as int));
        }
        map.insert(String::from_str("uid"), JsonValue::Int(self.uid));
        proof {
            lemma_put_fresh(map@, "email"@, JsonModel::Text(self.email@));
        }
        map.insert(String::from_str("email"), JsonValue::Text(self.email.clone()));
        proof {
            lemma_put_fresh(map@, "email_verified"@, JsonModel::Bool(self.email_verified));
        }
        map.insert(String::from_str("email_verified"), JsonValue::Bool(self.email_verified));
        proof {
            lemma_put_fresh(map@, "username"@, JsonModel::Text(self.username@));
        }
        map.insert(String::from_str("username"), JsonValue::Text(self.username.clone()));
        proof {
            lemma_put_fresh(map@, "password_hash"@, JsonModel::Text(self.password_hash@));
        }
        map.insert(String::from_str("password_hash"), JsonValue::Text(self.password_hash.clone()));
        assert(map@ =~= self.columns());
        map
    }

    fn get_keys_as_hashmap(&self, keys: Vec<&str>) -> (r: Values) {
        let map = self.as_hash_map();
        project_values(&map, &keys)
    }
}

// ---------------------------------------------------------------------------
// Tokens
// ---------------------------------------------------------------------------

#[derive(Debug, PartialEq, Eq)]
pub struct AuthTokens {
    pub jti: String,
    pub uid: i64,
    pub expires_at: i64,
}

pub struct AuthTokensModel {
    pub jti: Seq<char>,
    pub uid: i64,
    pub expires_at: i64,
}

impl View for AuthTokens {
    type V = AuthTokensModel;

    open spec fn view(&self) -> AuthTokensModel {
        AuthTokensModel {
            jti: self.jti@,
            uid: self.uid,
            expires_at: self.expires_at,
        }
    }
}

impl AuthTokens {
    /// The entity that a row holds, or the first column that fails.
    pub open spec fn read(row: Seq<(Seq<char>, JsonModel)>) -> Result<AuthTokensModel, RowErrorModel> {
        match read_text(row, "jti"@) {
            Err(e) => Err(e),
            Ok(jti) => match read_int(row, "uid"@) {
                Err(e) => Err(e),
                Ok(uid) => match read_int(row, "expires_at"@) {
                    Err(e) => Err(e),
                    Ok(expires_at) => Ok(AuthTokensModel { jti, uid, expires_at }),
                },
            },
        }
    }

    pub open spec fn debug_text(self) -> Seq<char> {
        "AuthToken { uid: "@ + signed_decimal(self.uid as int) + ", jti: "@ + self.jti@ + ", expires_at: "@ + signed_decimal(self.expires_at as int) + " }"@
    }

    proof fn lemma_keys()
        ensures
            "uid"@ != "jti"@,
            "uid"@ != "expires_at"@,
            "jti"@ != "expires_at"@,
    {
        reveal_strlit("uid");
        reveal_strlit("jti");
        reveal_strlit("expires_at");
        assert("uid"@.len() == 3);
        assert("jti"@.len() == 3);
        assert("expires_at"@.len() == 10);
        assert("uid"@[0] != "jti"@[0]);
    }
}

impl TableModel for AuthTokens {
    open spec fn fits(row: Seq<(Seq<char>, JsonModel)>) -> bool {
        AuthTokens::read(row) is Ok
    }

    open spec fn columns(&self) -> Seq<(Seq<char>, JsonModel)> {
        seq![
            ("uid"@, JsonModel::Integer(self.uid as int)),
            ("jti"@, JsonModel::Text(self.jti@)),
            ("expires_at"@, JsonModel::Integer(self.expires_at as int)),
        ]
    }

    fn from_row(row: &Values) -> (r: Result<Self, RowError>)
        ensures
            match r {
                Ok(entity) => AuthTokens::read(row@) == Ok::<_, RowErrorModel>(entity@),
                Err(e) => AuthTokens::read(row@) == Err::<AuthTokensModel, _>(e@),
            },
    {
        let jti = match row_text(row, "jti") {
            Ok(v) => v,
            Err(e) => {
                return Err(e);
            },
        };
        let uid = match row_int(row, "uid") {
            Ok(v) => v,
            Err(e) => {
                return Err(e);
            },
        };
        let expires_at = match row_int(row, "expires_at") {
            Ok(v) => v,
            Err(e) => {
                return Err(e);
            },
        };
        Ok(AuthTokens { jti, uid, expires_at })
    }

    open spec fn table_name_text() -> Seq<char> {
        "auth_tokens"@
    }

    fn table_name() -> (r: &'static str) {
        "auth_tokens"
    }

    fn debug_string(&self) -> (r: String)
        ensures
            r@ == self.debug_text(),
    {
        let mut out = String::from_str("AuthToken { uid: ");
        out.append(signed_decimal_text(self.uid).as_str());
        out.append(", jti: ");
        out.append(self.jti.as_str());
        out.append(", expires_at: ");
        out.append(signed_decimal_text(self.expires_at).as_str());
        out.append(" }");
        out
    }

    fn as_value(&self) -> (r: JsonValue) {
        let mut members: Vec<(String, JsonValue)> = Vec::new();
        members.push((String::from_str("uid"), JsonValue::Int(self.uid)));
        members.push((String::from_str("jti"), JsonValue::Text(self.jti.clone())));
        members.push((String::from_str("expires_at"), JsonValue::Int(self.expires_at)));
        proof {
            lemma_object_view(members);
            assert(member_models(members@) =~= self.columns());
        }
        JsonValue::Object(members)
    }

    fn as_hash_map(&self) -> (r: Values) {
        proof {
            AuthTokens::lemma_keys();
        }
        let mut map = Values::new();
        proof {
            lemma_put_fresh(map@, "uid"@, JsonModel::Integer(self.uid as int));
        }
        map.insert(String::from_str("uid"), JsonValue::Int(self.uid));
        proof {
            lemma_put_fresh(map@, "jti"@, JsonModel::Text(self.jti@));
        }
        map.insert(String::from_str("jti"), JsonValue::Text(self.jti.clone()));
        proof {
            lemma_put_fresh(map@, "expires_at"@, JsonModel::Integer(self.expires_at as int));
        }
        map.insert(String::from_str("expires_at"), JsonValue::Int(self.expires_at));
        assert(map@ =~= self.columns());
        map
    }

    fn get_keys_as_hashmap(&self, keys: Vec<&str>) -> (r: Values) {
        let map = self.as_hash_map();
        project_values(&map, &keys)
    }
}

// ---------------------------------------------------------------------------
// Entities behind the trait
// ---------------------------------------------------------------------------

/// An entity that can be handed out as a `TableModel` of no stated type.
pub trait Rehydrate: TableModel {
    /// The entity that a row holds, handed out behind the trait. Each of
    /// its columns is in the row with its value.
    fn rehydrate(row: &Values) -> (r: Result<Box<dyn TableModel>, RowError>) where Self: Sized
        ensures
            r is Ok <==> Self::fits(row@),
            r matches Ok(entity) ==> forall|i: int|
                0 <= i < entity.columns().len() ==> lookup(
                    row@,
                    (#[trigger] entity.columns()[i]).0,
                ) == Some(entity.columns()[i].1),
    ;
}

impl Rehydrate for User {
    fn rehydrate(row: &Values) -> (r: Result<Box<dyn TableModel>, RowError>) {
        match User::from_row(row) {
            Ok(entity) => Ok(Box::new(entity)),
            Err(e) => Err(e),
        }
    }
}

impl Rehydrate for AuthUser {
    fn rehydrate(row: &Values) -> (r: Result<Box<dyn TableModel>, RowError>) {
        match AuthUser::from_row(row) {
            Ok(entity) => Ok(Box::new(entity)),
            Err(e) => Err(e),
        }
    }
}

impl Rehydrate for AuthTokens {
    fn rehydrate(row: &Values) -> (r: Result<Box<dyn TableModel>, RowError>) {
        match AuthTokens::from_row(row) {
            Ok(entity) => Ok(Box::new(entity)),
            Err(e) => Err(e),
        }
    }
}

} // verus!
