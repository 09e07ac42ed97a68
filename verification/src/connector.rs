//! What the ssh connection to a target decides on its own: when a remote
//! command counts as failed, where uploaded files land, and the random names
//! of uploads.

use vstd::prelude::*;
use crate::error::DeployError;
use crate::text::push_char;

verus! {

/// The length of the random name a file is uploaded under.
pub const UPLOAD_NAME_LEN: usize = 10;

/// Whether `c` is an ASCII letter or digit.
pub open spec fn is_alphanumeric(c: char) -> bool {
    ||| ('A' as int) <= (c as int) <= ('Z' as int)
    ||| ('a' as int) <= (c as int) <= ('z' as int)
    ||| ('0' as int) <= (c as int) <= ('9' as int)
}

/// Draws one ASCII letter or digit from the thread's random number
/// generator, through rand's `Rng::sample` with the `Alphanumeric`
/// distribution. Its source draws uniformly from `A-Z`, `a-z` and `0-9`;
/// only that the byte is one of these is stated.
#[verifier::external_body]
fn sample_alphanumeric() -> (b: u8)
    ensures
        is_alphanumeric(b as char),
{
    rand::Rng::sample(&mut rand::thread_rng(), rand::distributions::Alphanumeric)
}

/// The name made of the characters with the codes `bytes`, in order.
pub fn name_from_bytes(bytes: &Vec<u8>) -> (name: String)
    ensures
        name@ == bytes@.map_values(|b: u8| b as char),
{
    let mut name = String::new();
    let mut n: usize = 0;
    while n < bytes.len()
        invariant
            n <= bytes@.len(),
            name@ =~= bytes@.subrange(0, n as int).map_values(|b: u8| b as char),
        decreases bytes@.len() - n,
    {
        push_char(&mut name, bytes[n] as char);
        n = n + 1;
        assert(bytes@.subrange(0, n as int) =~= bytes@.subrange(0, n - 1).push(bytes@[n - 1]));
    }
    assert(bytes@.subrange(0, n as int) =~= bytes@);
    name
}

/// A fresh random name for an uploaded file: ten ASCII letters or digits,
/// drawn one by one.
pub fn random_upload_name() -> (name: String)
    ensures
        name@.len() == UPLOAD_NAME_LEN,
        forall|i: int| 0 <= i < name@.len() ==> is_alphanumeric(#[trigger] name@[i]),
{
    let mut bytes: Vec<u8> = Vec::new();
    while bytes.len() < UPLOAD_NAME_LEN
        invariant
            bytes@.len() <= UPLOAD_NAME_LEN,
            forall|i: int| 0 <= i < bytes@.len() ==> is_alphanumeric(#[trigger] bytes@[i] as char),
        decreases UPLOAD_NAME_LEN - bytes@.len(),
    {
        let b: u8 = sample_alphanumeric();
        bytes.push(b);
    }
    let name = name_from_bytes(&bytes);
    assert forall|i: int| 0 <= i < name@.len() implies is_alphanumeric(#[trigger] name@[i]) by {
        assert(name@[i] == bytes@[i] as char);
    }
    name
}

/// The outcome of a command run on the target: it failed, with its output,
/// exactly when its exit status is not zero.
pub fn check_exit_status(exit_status: u32, stdout: String) -> (r: Result<(), DeployError>)
    ensures
        exit_status == 0 ==> r is Ok,
        exit_status != 0 ==> r == Err::<(), DeployError>(DeployError::RemoteCommandFailed { stdout }),
{
    if exit_status != 0 {
        Err(DeployError::RemoteCommandFailed { stdout })
    } else {
        Ok(())
    }
}

/// The one address a target resolves to; `None` when it resolves to none or
/// to several.
pub fn single_address<A>(addresses: Vec<A>) -> (r: Option<A>)
    ensures
        r is Some <==> addresses@.len() == 1,
        r matches Some(a) ==> a == addresses@[0],
{
    let mut addresses = addresses;
    if addresses.len() == 1 {
        addresses.pop()
    } else {
        None
    }
}

/// Where a service's environment file is uploaded.
pub open spec fn env_upload_path(name: Seq<char>) -> Seq<char> {
    name + "/.env"@
}

/// Where a service's nginx configuration is uploaded.
pub open spec fn nginx_upload_path(name: Seq<char>) -> Seq<char> {
    "/etc/nginx/default.d/"@ + name + ".conf"@
}

/// Where a service's starter script is uploaded.
pub open spec fn starter_upload_path(name: Seq<char>) -> Seq<char> {
    name + "-starter.sh"@
}

/// Where a service's systemd unit is uploaded.
pub open spec fn systemd_upload_path(name: Seq<char>) -> Seq<char> {
    "/etc/systemd/system/"@ + name + ".service"@
}

/// The remote path of the environment file of the service named `name`.
pub fn env_path(name: &str) -> (p: String)
    ensures
        p@ == env_upload_path(name@),
{
    String::from_str(name).concat("/.env")
}

/// The remote path of the nginx configuration of the service named `name`.
pub fn nginx_path(name: &str) -> (p: String)
    ensures
        p@ == nginx_upload_path(name@),
{
    String::from_str("/etc/nginx/default.d/").concat(name).concat(".conf")
}

/// The remote path of the starter script of the service named `name`.
pub fn starter_path(name: &str) -> (p: String)
    ensures
        p@ == starter_upload_path(name@),
{
    String::from_str(name).concat("-starter.sh")
}

/// The remote path of the systemd unit of the service named `name`.
pub fn systemd_path(name: &str) -> (p: String)
    ensures
        p@ == systemd_upload_path(name@),
{
    String::from_str("/etc/systemd/system/").concat(name).concat(".service")
}

/// Where the files of a service named `name` land on the target: the
/// environment file in its folder, the nginx configuration among nginx's
/// default configurations, the starter script in the home directory, and
/// the systemd unit among systemd's units.
pub proof fn lemma_upload_paths(name: Seq<char>)
    ensures
        env_upload_path(name) == name + "/.env"@,
        nginx_upload_path(name) == "/etc/nginx/default.d/"@ + name + ".conf"@,
        starter_upload_path(name) == name + "-starter.sh"@,
        systemd_upload_path(name) == "/etc/systemd/system/"@ + name + ".service"@,
{
}

} // verus!
