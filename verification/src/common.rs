//! Helpers shared by the components: path validation, the directories of
//! the application, and the device identifier.

use crate::error::StatuslineError;
use crate::text::{string_of, text_of, to_chars};
use vstd::prelude::*;
use vstd::string::*;

verus! {

/// The directory of the application below a base directory.
pub const APP_DIR_NAME: &'static str = "claudia-statusline";

/// Whether a path holds a null character.
pub open spec fn has_null_byte(path: Seq<char>) -> bool {
    path.contains('\0')
}

/// The outcome of the security check of a path: a path with a null character
/// is refused; one that the file system could not resolve is refused; else
/// the resolved path stands.
pub open spec fn checked_path(path: Seq<char>, canonical: Option<Seq<char>>) -> Result<
    Seq<char>,
    Seq<char>,
> {
    if has_null_byte(path) {
        Err("Path contains null bytes"@)
    } else {
        match canonical {
            Some(resolved) => Ok(resolved),
            None => Err("Cannot canonicalize path: "@ + path),
        }
    }
}

/// Whether a result of the library agrees with its model: the same side, and
/// the same text on it; every error here is an `InvalidPath`.
pub open spec fn agrees(r: Result<String, StatuslineError>, model: Result<Seq<char>, Seq<char>>) -> bool {
    match r {
        Ok(p) => model == Ok::<Seq<char>, Seq<char>>(p@),
        Err(e) => e matches StatuslineError::InvalidPath(m) && model == Err::<
            Seq<char>,
            Seq<char>,
        >(m@),
    }
}

/// Whether the text holds a null character.
pub fn contains_null_byte(path: &str) -> (r: bool)
    ensures
        r == has_null_byte(path@),
{
    let chars = to_chars(path);
    let mut i: usize = 0;
    while i < chars.len()
        invariant
            i <= chars.len(),
            chars@ == path@,
            forall|j: int| 0 <= j < i ==> chars@[j] != '\0',
        decreases chars.len() - i,
    {
        if chars[i] == '\0' {
            assert(path@[i as int] == '\0');
            return true;
        }
        i += 1;
    }
    false
}

/// Checks a path before it is used. `canonical` is what the file system
/// resolved the path to, or `None` where it could not.
pub fn validate_path_security(path: &str, canonical: Option<String>) -> (r: Result<
    String,
    StatuslineError,
>)
    ensures
        agrees(r, checked_path(path@, string_of(canonical))),
        has_null_byte(path@) ==> r is Err,
{
    if contains_null_byte(path) {
        return Err(StatuslineError::invalid_path("Path contains null bytes"));
    }
    match canonical {
        Some(resolved) => Ok(resolved),
        None => {
            let mut message = String::from_str("Cannot canonicalize path: ");
            message.append(path);
            Err(StatuslineError::InvalidPath(message))
        },
    }
}

/// A base directory with a relative name below it: the two joined by one
/// slash, which a base that is empty or ends in a slash does not need.
pub open spec fn joined_path(base: Seq<char>, name: Seq<char>) -> Seq<char> {
    if base.len() == 0 || base.last() == '/' {
        base + name
    } else {
        base + seq!['/'] + name
    }
}

/// The text of an optional value, or a fallback.
pub open spec fn text_or(value: Option<Seq<char>>, fallback: Seq<char>) -> Seq<char> {
    match value {
        Some(text) => text,
        None => fallback,
    }
}

/// The directory of the application below the first base that is known: the
/// directory that the user set, the one of the platform, or the conventional
/// place below the home directory (below the current directory where no home
/// is known).
pub open spec fn app_dir_of(
    user_dir: Option<Seq<char>>,
    platform_dir: Option<Seq<char>>,
    home: Option<Seq<char>>,
    conventional: Seq<Seq<char>>,
) -> Seq<char> {
    let base = match user_dir {
        Some(dir) => dir,
        None => match platform_dir {
            Some(dir) => dir,
            None => below(text_or(home, seq!['.']), conventional),
        },
    };
    joined_path(base, APP_DIR_NAME@)
}

/// A directory some levels below a base.
pub open spec fn below(base: Seq<char>, names: Seq<Seq<char>>) -> Seq<char>
    decreases names.len(),
{
    if names.len() == 0 {
        base
    } else {
        joined_path(below(base, names.drop_last()), names.last())
    }
}

/// Joins a relative name to a base directory.
pub fn join_path(base: &str, name: &str) -> (path: String)
    ensures
        path@ == joined_path(base@, name@),
{
    let chars = to_chars(base);
    let mut path = String::from_str(base);
    if chars.len() > 0 && chars[chars.len() - 1] != '/' {
        path.push('/');
    }
    path.append(name);
    assert(path@ =~= joined_path(base@, name@));
    path
}

/// The data directory of the application. `xdg_data_home` is the directory
/// that the user set, `platform_data_dir` the data directory of the platform,
/// `home` the home directory, each as far as it is known.
pub fn get_data_dir(
    xdg_data_home: Option<&str>,
    platform_data_dir: Option<&str>,
    home: Option<&str>,
) -> (dir: String)
    ensures
        dir@ == app_dir_of(
            text_of(xdg_data_home),
            text_of(platform_data_dir),
            text_of(home),
            seq![".local"@, "share"@],
        ),
{
    let base: String = match xdg_data_home {
        Some(dir) => String::from_str(dir),
        None => match platform_data_dir {
            Some(dir) => String::from_str(dir),
            None => {
                let root = match home {
                    Some(h) => h,
                    None => ".",
                };
                proof {
                    reveal_strlit(".");
                    assert("."@ =~= seq!['.']);
                    let names = seq![".local"@, "share"@];
                    assert(names.drop_last() =~= seq![".local"@]);
                    assert(names.drop_last().drop_last() =~= Seq::<Seq<char>>::empty());
                    reveal_with_fuel(below, 3);
                }
                let local = join_path(root, ".local");
                join_path(local.as_str(), "share")
            },
        },
    };
    join_path(base.as_str(), APP_DIR_NAME)
}

/// The configuration directory of the application. `xdg_config_home` is the
/// directory that the user set, `platform_config_dir` the configuration
/// directory of the platform, `home` the home directory, each as far as it is
/// known.
pub fn get_config_dir(
    xdg_config_home: Option<&str>,
    platform_config_dir: Option<&str>,
    home: Option<&str>,
) -> (dir: String)
    ensures
        dir@ == app_dir_of(
            text_of(xdg_config_home),
            text_of(platform_config_dir),
            text_of(home),
            seq![".config"@],
        ),
{
    let base: String = match xdg_config_home {
        Some(dir) => String::from_str(dir),
        None => match platform_config_dir {
            Some(dir) => String::from_str(dir),
            None => {
                let root = match home {
                    Some(h) => h,
                    None => ".",
                };
                proof {
                    reveal_strlit(".");
                    assert("."@ =~= seq!['.']);
                    let names = seq![".config"@];
                    assert(names.drop_last() =~= Seq::<Seq<char>>::empty());
                    reveal_with_fuel(below, 2);
                }
                join_path(root, ".config")
            },
        },
    };
    join_path(base.as_str(), APP_DIR_NAME)
}

/// The SHA-256 digest of a message, as the sha2 crate computes it.
pub uninterp spec fn sha256_digest(message: Seq<u8>) -> Seq<u8>;

/// Hashes `message` with `Sha256::digest` of the sha2 crate. The digest is a
/// function of the message alone and is 32 bytes long.
#[verifier::external_body]
fn sha256(message: &Vec<u8>) -> (digest: Vec<u8>)
    ensures
        digest@ == sha256_digest(message@),
        digest@.len() == 32,
{
    <sha2::Sha256 as sha2::Digest>::digest(message).to_vec()
}

/// The character of a hexadecimal digit, in lower case.
pub open spec fn hex_char(digit: nat) -> char
    recommends
        digit < 16,
{
    if digit < 10 {
        (48 + digit) as char
    } else {
        (87 + digit) as char
    }
}

/// The bytes in hexadecimal, two lower-case digits for each.
pub open spec fn hex_of(bytes: Seq<u8>) -> Seq<char>
    decreases bytes.len(),
{
    if bytes.len() == 0 {
        Seq::empty()
    } else {
        hex_of(bytes.drop_last()).push(hex_char((bytes.last() / 16) as nat)).push(
            hex_char((bytes.last() % 16) as nat),
        )
    }
}

/// The message that identifies a device: the host name, a bar, the user
/// name, each as UTF-8.
pub open spec fn device_message(host: Seq<char>, user: Seq<char>) -> Seq<u8> {
    vstd::utf8::encode_utf8(host) + seq![124u8] + vstd::utf8::encode_utf8(user)
}

/// The identifier of a device: the first eight bytes of the SHA-256 digest of
/// its message, in hexadecimal. An unknown host counts as `unknown-host`; the
/// user is the first of the two names that is known, else `unknown-user`.
pub open spec fn device_id_of(
    hostname: Option<Seq<char>>,
    user: Option<Seq<char>>,
    username: Option<Seq<char>>,
) -> Seq<char> {
    let host = text_or(hostname, "unknown-host"@);
    let name = match user {
        Some(u) => u,
        None => text_or(username, "unknown-user"@),
    };
    hex_of(sha256_digest(device_message(host, name)).take(8))
}

/// The character of a hexadecimal digit, in lower case.
pub fn hex_digit(digit: u8) -> (c: char)
    requires
        digit < 16,
    ensures
        c == hex_char(digit as nat),
{
    if digit < 10 {
        (48 + digit) as char
    } else {
        (87 + digit) as char
    }
}

/// Writes the first `count` bytes in hexadecimal.
pub fn hex_prefix(bytes: &Vec<u8>, count: usize) -> (s: String)
    requires
        count <= bytes.len(),
    ensures
        s@ == hex_of(bytes@.take(count as int)),
{
    let mut s = String::new();
    let mut i: usize = 0;
    while i < count
        invariant
            i <= count <= bytes.len(),
            s@ == hex_of(bytes@.take(i as int)),
        decreases count - i,
    {
        let byte = bytes[i];
        s.push(hex_digit(byte / 16));
        s.push(hex_digit(byte % 16));
        i += 1;
        proof {
            let now = bytes@.take(i as int);
            assert(now.drop_last() =~= bytes@.take(i - 1));
            assert(now.last() == byte);
        }
    }
    s
}

/// The stable identifier of the device, from what is known of the host name
/// and of the two environment entries that name the user.
pub fn get_device_id(hostname: Option<&str>, user: Option<&str>, username: Option<&str>) -> (id:
    String)
    ensures
        id@ == device_id_of(text_of(hostname), text_of(user), text_of(username)),
        id@.len() == 16,
{
    let host: &str = match hostname {
        Some(h) => h,
        None => "unknown-host",
    };
    let name: &str = match user {
        Some(u) => u,
        None => match username {
            Some(u) => u,
            None => "unknown-user",
        },
    };
    let mut message: Vec<u8> = host.as_bytes_vec();
    message.push(124u8);
    message.extend_from_slice(name.as_bytes());
    assert(message@ =~= device_message(host@, name@));
    let digest = sha256(&message);
    let id = hex_prefix(&digest, 8);
    proof {
        lemma_hex_length(digest@.take(8));
    }
    id
}

/// Hexadecimal takes two characters for each byte.
pub proof fn lemma_hex_length(bytes: Seq<u8>)
    ensures
        hex_of(bytes).len() == 2 * bytes.len(),
    decreases bytes.len(),
{
    if bytes.len() > 0 {
        lemma_hex_length(bytes.drop_last());
    }
}

} // verus!
