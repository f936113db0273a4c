//! The configuration of the transfer tool: what the file says for a remote
//! in the cloud, and how a profile is pointed at the tool.

use crate::config::{find_profile, first_with, profile_ids, PROFILE_NOT_FOUND};
use crate::models::{AppConfig, IAMCredentials, Profile};
use crate::text::{string_of, to_chars};
use vstd::prelude::*;

verus! {

/// The name of the file that configures the transfer tool.
pub const RCLONE_CONF: &'static str = "rclone.conf";

/// The name of the file that configures the transfer tool for scheduled
/// backups.
pub const RCLONE_SCHEDULED_CONF: &'static str = "rclone-scheduled.conf";

/// What the configuration says of the remote `remote_name`: a store in the
/// cloud, reached with these keys in this region.
pub open spec fn remote_config_text(
    remote_name: Seq<char>,
    access_key: Seq<char>,
    secret_key: Seq<char>,
    region: Seq<char>,
) -> Seq<char> {
    "["@ + remote_name + "]\ntype = s3\nprovider = AWS\naccess_key_id = "@ + access_key
        + "\nsecret_access_key = "@ + secret_key + "\nregion = "@ + region
        + "\nlocation_constraint = "@ + region + "\n\n"@
}

/// Writes what the configuration says of the remote `remote_name`.
pub fn remote_config(remote_name: &str, access_key: &str, secret_key: &str, region: &str) -> (text:
    String)
    ensures
        text@ == remote_config_text(remote_name@, access_key@, secret_key@, region@),
{
    let mut text = String::from_str("[");
    text.append(remote_name);
    text.append("]\ntype = s3\nprovider = AWS\naccess_key_id = ");
    text.append(access_key);
    text.append("\nsecret_access_key = ");
    text.append(secret_key);
    text.append("\nregion = ");
    text.append(region);
    text.append("\nlocation_constraint = ");
    text.append(region);
    text.append("\n\n");
    text
}

/// What the configuration for scheduled backups says: the remote `aws`,
/// reached with these keys, which keeps what it stores private.
pub open spec fn scheduled_config_text(
    access_key_id: Seq<char>,
    secret_access_key: Seq<char>,
    region: Seq<char>,
) -> Seq<char> {
    "[aws]\ntype = s3\nprovider = AWS\nenv_auth = false\naccess_key_id = "@ + access_key_id
        + "\nsecret_access_key = "@ + secret_access_key + "\nregion = "@ + region
        + "\nacl = private\n\n"@
}

/// Writes the configuration for scheduled backups with `credentials`.
pub fn scheduled_config(credentials: &IAMCredentials) -> (text: String)
    ensures
        text@ == scheduled_config_text(
            credentials.access_key_id@,
            credentials.secret_access_key@,
            credentials.region@,
        ),
{
    let mut text = String::from_str(
        "[aws]\ntype = s3\nprovider = AWS\nenv_auth = false\naccess_key_id = ",
    );
    text.append(credentials.access_key_id.as_str());
    text.append("\nsecret_access_key = ");
    text.append(credentials.secret_access_key.as_str());
    text.append("\nregion = ");
    text.append(credentials.region.as_str());
    text.append("\nacl = private\n\n");
    text
}

/// `text` with an underscore in the place of every hyphen.
pub open spec fn with_underscores(text: Seq<char>) -> Seq<char> {
    text.map_values(|c: char| if c == '-' {
        '_'
    } else {
        c
    })
}

/// The name of the remote for the bucket `bucket`: the bucket's name with
/// underscores for hyphens, and `-s3` behind it.
pub open spec fn remote_name_of(bucket: Seq<char>) -> Seq<char> {
    with_underscores(bucket) + "-s3"@
}

/// The name of the remote for the bucket `bucket`.
pub fn remote_name(bucket: &str) -> (name: String)
    ensures
        name@ == remote_name_of(bucket@),
{
    let chars = to_chars(bucket);
    let mut changed: Vec<char> = Vec::new();
    let mut i: usize = 0;
    while i < chars.len()
        invariant
            i <= chars.len(),
            changed@ == with_underscores(chars@.take(i as int)),
        decreases chars.len() - i,
    {
        let c = chars[i];
        changed.push(if c == '-' {
            '_'
        } else {
            c
        });
        assert(changed@ =~= with_underscores(chars@.take(i + 1)));
        i = i + 1;
    }
    assert(chars@.take(chars.len() as int) =~= chars@);
    let mut name = string_of(changed.as_slice());
    name.append("-s3");
    name
}

/// `profile` pointed at the transfer tool at `rclone_bin` with the
/// configuration at `rclone_conf`, and at the remote `remote` if one is
/// given, changed at `now`.
pub open spec fn pointed(
    profile: Profile,
    rclone_bin: String,
    rclone_conf: String,
    remote: Option<String>,
    now: i64,
) -> Profile {
    Profile {
        rclone_bin,
        rclone_conf,
        remote: match remote {
            Some(name) => name,
            None => profile.remote,
        },
        updated_at: now,
        ..profile
    }
}

/// Points the profile `profile_id` at the transfer tool at `rclone_bin`
/// with the configuration at `rclone_conf`, and at the remote `remote` if
/// one is given, at the instant `now`. Fails, and changes nothing, if there
/// is no such profile.
pub fn point_profile(
    config: &mut AppConfig,
    profile_id: &str,
    rclone_bin: String,
    rclone_conf: String,
    remote: Option<String>,
    now: i64,
) -> (done: Result<usize, String>)
    ensures
        match first_with(profile_ids(old(config).profiles@), profile_id@) {
            None => done matches Err(message) && message@ == PROFILE_NOT_FOUND@ && *final(config)
                == *old(config),
            Some(at) => done == Ok::<usize, String>(at as usize) && *final(config) == (AppConfig {
                profiles: final(config).profiles,
                updated_at: now,
                ..*old(config)
            }) && final(config).profiles@ == old(config).profiles@.update(
                at,
                pointed(old(config).profiles@[at], rclone_bin, rclone_conf, remote, now),
            ),
        },
{
    let at = match find_profile(config.profiles.as_slice(), profile_id) {
        Some(at) => at,
        None => {
            return Err(String::from_str(PROFILE_NOT_FOUND));
        },
    };
    let mut profile = config.profiles.remove(at);
    profile.rclone_bin = rclone_bin;
    profile.rclone_conf = rclone_conf;
    match remote {
        Some(name) => {
            profile.remote = name;
        },
        None => {},
    }
    profile.updated_at = now;
    config.profiles.insert(at, profile);
    config.updated_at = now;
    assert(config.profiles@ =~= old(config).profiles@.update(at as int, profile));
    Ok(at)
}

/// What is said of a profile that has no cloud account.
pub const NO_AWS_CONFIG: &'static str =
    "Profile does not have AWS configuration. Please complete admin setup first.";

} // verus!
