//! What the web console decides: who may call it, and what it is asked
//! for.

use vstd::prelude::*;
use crate::config::WebConsoleConfig;
use crate::header::{levels_of, lemma_split_levels_sound, split_levels, split_topic};
use crate::text::{owned, str_eq};

verus! {

/// The secret that callers of the API present.
#[derive(Debug)]
pub struct Store {
    api_token: String,
}

impl View for Store {
    type V = Seq<char>;

    /// The token.
    closed spec fn view(&self) -> Seq<char> {
        self.api_token@
    }
}

impl Clone for Store {
    fn clone(&self) -> (r: Self)
        ensures
            r@ == self@,
    {
        Store { api_token: self.api_token.clone() }
    }
}

impl Default for Store {
    fn default() -> (r: Self)
        ensures
            r@ == Seq::<char>::empty(),
    {
        Store { api_token: String::new() }
    }
}

/// The authorization header that presents `token`.
pub open spec fn bearer(token: Seq<char>) -> Seq<char> {
    "Bearer "@ + token
}

impl Store {
    pub fn new(api_token: String) -> (s: Self)
        ensures
            s@ == api_token@,
    {
        Self { api_token }
    }

    /// Whether `auth_header` presents the token, as `Bearer` and the token
    /// with one space between.
    pub fn api_token_check(&self, auth_header: &str) -> (ok: bool)
        ensures
            ok == (auth_header@ == bearer(self@)),
    {
        let expected = owned("Bearer ").concat(self.api_token.as_str());
        str_eq(auth_header, expected.as_str())
    }
}

/// An error as the API reports it.
#[derive(Debug, PartialEq, Eq)]
pub struct JsonError {
    error: String,
}

impl View for JsonError {
    type V = Seq<char>;

    /// The text of the error.
    closed spec fn view(&self) -> Seq<char> {
        self.error@
    }
}

impl JsonError {
    pub fn _new(error: String) -> (e: Self)
        ensures
            e@ == error@,
    {
        Self { error }
    }

    pub fn unauthorized() -> (e: Self)
        ensures
            e@ == "Unauthorized"@,
    {
        Self { error: owned("Unauthorized") }
    }

    pub fn _internal() -> (e: Self)
        ensures
            e@ == "Internal Server Error"@,
    {
        Self { error: owned("Internal Server Error") }
    }

    /// The text of the error.
    pub fn error(&self) -> (text: String)
        ensures
            text@ == self@,
    {
        self.error.clone()
    }
}

/// Lets a call of the API through exactly if it carries an authorization
/// header that presents the token; any other call is answered as
/// unauthorized.
pub fn auth(store: &Store, auth_header: Option<&str>) -> (r: Result<(), JsonError>)
    ensures
        r is Ok <==> (auth_header matches Some(h) && h@ == bearer(store@)),
        r matches Err(e) ==> e@ == "Unauthorized"@,
{
    match auth_header {
        Some(h) => {
            if store.api_token_check(h) {
                Ok(())
            } else {
                Err(JsonError::unauthorized())
            }
        },
        None => Err(JsonError::unauthorized()),
    }
}

/// Whether user name and password are those of the console.
pub fn check_password(config: &WebConsoleConfig, username: &str, password: &str) -> (ok: bool)
    ensures
        ok == (username@ == config.username@ && password@ == config.password@),
{
    str_eq(username, config.username.as_str()) && str_eq(password, config.password.as_str())
}

/// What a user presents to log in.
#[derive(Debug, PartialEq, Eq)]
pub struct Login {
    username: String,
    password: String,
}

impl Login {
    pub fn new(username: String, password: String) -> (l: Self)
        ensures
            l.name() == username@,
            l.secret() == password@,
    {
        Self { username, password }
    }

    /// The user name presented.
    pub closed spec fn name(&self) -> Seq<char> {
        self.username@
    }

    /// The password presented.
    pub closed spec fn secret(&self) -> Seq<char> {
        self.password@
    }

    /// The user name presented.
    pub fn username(&self) -> (name: &String)
        ensures
            name@ == self.name(),
    {
        &self.username
    }

    /// Whether the login presents the console's user name and password.
    pub fn accepted(&self, config: &WebConsoleConfig) -> (ok: bool)
        ensures
            ok == (self.name() == config.username@ && self.secret() == config.password@),
    {
        check_password(config, self.username.as_str(), self.password.as_str())
    }
}

/// The message that a request names.
#[derive(Debug, PartialEq, Eq)]
pub struct MsgParams {
    pub id: String,
}

/// The page of messages that a request asks for.
#[derive(Debug, Clone, Copy, PartialEq, Eq, Structural)]
pub struct PageParam {
    pub page_num: usize,
    pub page_size: usize,
}

impl Default for PageParam {
    fn default() -> (p: Self)
        ensures
            p == (PageParam { page_num: 0, page_size: 0 }),
    {
        PageParam { page_num: 0, page_size: 0 }
    }
}

impl PageParam {
    /// How many messages the page holds at most and how many stand before
    /// it: the page size, and the page size times the page number. `None`
    /// where either is beyond the largest 64-bit signed integer.
    pub fn window(&self) -> (w: Option<(i64, i64)>)
        ensures
            match w {
                Some((limit, offset)) => limit == self.page_size && offset == self.page_size
                    * self.page_num,
                None => self.page_size > i64::MAX || self.page_size * self.page_num > i64::MAX,
            },
    {
        if self.page_size as u128 > i64::MAX as u128 {
            return None;
        }
        let size: u128 = self.page_size as u128;
        let num: u128 = self.page_num as u128;
        assert(size * num <= 0xffff_ffff_ffff_ffff * 0xffff_ffff_ffff_ffff) by (nonlinear_arith)
            requires
                size <= 0xffff_ffff_ffff_ffff,
                num <= 0xffff_ffff_ffff_ffff,
        ;
        let offset: u128 = size * num;
        if offset > i64::MAX as u128 {
            return None;
        }
        Some((self.page_size as i64, offset as i64))
    }
}

/// The kinds of parts that a path is made of.
#[derive(Debug, Clone, Copy, PartialEq, Eq, Structural)]
pub enum PathPart {
    Prefix,
    RootDir,
    CurDir,
    ParentDir,
    Normal,
}

/// The kinds of the parts of `path`, as `std::path::Path::components`
/// tells them apart on the machine at hand. Nothing is claimed of them.
#[verifier::external_body]
fn path_parts(path: &str) -> Vec<PathPart> {
    std::path::Path::new(path).components().map(
        |part|
            match part {
                std::path::Component::Prefix(_) => PathPart::Prefix,
                std::path::Component::RootDir => PathPart::RootDir,
                std::path::Component::CurDir => PathPart::CurDir,
                std::path::Component::ParentDir => PathPart::ParentDir,
                std::path::Component::Normal(_) => PathPart::Normal,
            },
    ).collect()
}

/// Whether the parts are one normal part and nothing else.
pub fn is_single_normal(parts: &Vec<PathPart>) -> (yes: bool)
    ensures
        yes == (parts@ == seq![PathPart::Normal]),
{
    if parts.len() != 1 {
        return false;
    }
    match parts[0] {
        PathPart::Normal => {
            assert(parts@ =~= seq![PathPart::Normal]);
            true
        },
        _ => false,
    }
}

/// The level `..`, which steps to the directory above.
pub open spec fn is_parent_level(level: Seq<char>) -> bool {
    level == seq!['.', '.']
}

/// The level `.`, which stays in the directory at hand.
pub open spec fn is_current_level(level: Seq<char>) -> bool {
    level == seq!['.']
}

/// Whether a path, read with `/` between its levels, begins with a name
/// and never steps to the directory above: its first level is neither
/// empty, so that the path is not empty and does not begin at the root,
/// nor `.`, and no level is `..`.
pub open spec fn stays_inside(path: Seq<char>) -> bool {
    let levels = split_levels(path);
    &&& levels[0].len() > 0
    &&& !is_current_level(levels[0])
    &&& forall|i: int| 0 <= i < levels.len() ==> !is_parent_level(#[trigger] levels[i])
}

fn is_parent(level: &Vec<char>) -> (yes: bool)
    ensures
        yes == is_parent_level(level@),
{
    if level.len() == 2 && level[0] == '.' && level[1] == '.' {
        assert(level@ =~= seq!['.', '.']);
        true
    } else {
        false
    }
}

fn is_current(level: &Vec<char>) -> (yes: bool)
    ensures
        yes == is_current_level(level@),
{
    if level.len() == 1 && level[0] == '.' {
        assert(level@ =~= seq!['.']);
        true
    } else {
        false
    }
}

/// Whether `path` begins with a name and never steps to the directory
/// above.
pub fn begins_inside(path: &str) -> (yes: bool)
    ensures
        yes == stays_inside(path@),
{
    let levels = split_topic(path);
    proof {
        lemma_split_levels_sound(path@);
    }
    assert(levels_of(levels@)[0] == levels@[0]@);
    if levels[0].len() == 0 || is_current(&levels[0]) {
        return false;
    }
    let mut i: usize = 0;
    while i < levels.len()
        invariant
            i <= levels.len(),
            levels_of(levels@) == split_levels(path@),
            forall|j: int| 0 <= j < i ==> !is_parent_level(#[trigger] split_levels(path@)[j]),
        decreases levels.len() - i,
    {
        assert(levels_of(levels@)[i as int] == levels@[i as int]@);
        if is_parent(&levels[i]) {
            return false;
        }
        i += 1;
    }
    true
}

/// Whether `path` names a file directly, so that it cannot lead out of
/// the directory it is used in: it begins with a name and never steps to
/// the directory above, and the path syntax of the machine at hand finds
/// in it exactly one normal part. A path that fails the first is refused
/// on every machine.
pub fn path_is_valid(path: &str) -> (valid: bool)
    ensures
        valid ==> stays_inside(path@),
{
    if !begins_inside(path) {
        return false;
    }
    let parts = path_parts(path);
    is_single_normal(&parts)
}

} // verus!
