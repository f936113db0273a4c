//! The cloud account: the script that sets up a shared bucket and its
//! users, what the script reports, and what the command-line client is told.

use crate::compose::{decimal_string, decimal_text, fill, filled, join, joined_with, str_texts, string_texts};
use crate::config::{first_with, find_profile, profile_ids};
use crate::models::{AppConfig, AwsConfig, Employee, LifecycleConfig, Profile};
use crate::system::{fresh_id, utc_now_millis};
use crate::text::{lines_of, split, split_lines, split_on, starts_with, string_of, texts, to_chars, matches_at};
use crate::transfer::push_text;
use vstd::prelude::*;

verus! {

/// The setup script from its first line to where the bucket's name goes.
pub const SETUP_SCRIPT_00: &'static str = r#"#!/bin/bash
set -euo pipefail

# Configuration
BUCKET=""#;

/// The setup script from there to where the region goes.
pub const SETUP_SCRIPT_01: &'static str = r#""
REGION=""#;

/// The setup script from there to where the administrator's user name goes.
pub const SETUP_SCRIPT_02: &'static str = r#""
ADMIN_USER=""#;

/// The setup script from there to where the names of the employees goes.
pub const SETUP_SCRIPT_03: &'static str = r#""
EMPLOYEES=""#;

/// The setup script from there to where the name of the command-line profile goes.
pub const SETUP_SCRIPT_04: &'static str = r#""
PROFILE=""#;

/// The setup script from there to where whether objects move between storage classes goes.
pub const SETUP_SCRIPT_05: &'static str = r#""

ENABLE_LIFECYCLE=""#;

/// The setup script from there to where the days before infrequent access goes.
pub const SETUP_SCRIPT_06: &'static str = r#""
DAYS_TO_IA=""#;

/// The setup script from there to where the days before the archive goes.
pub const SETUP_SCRIPT_07: &'static str = r#""
DAYS_TO_GLACIER=""#;

/// The setup script from there to where the bucket's name goes.
pub const SETUP_SCRIPT_08: &'static str = r#""

# Create output directory
mkdir -p /tmp/aws-output/creds

echo "Setting up shared bucket: $BUCKET with profile: $PROFILE"

# 1. Create bucket if it doesn't exist
aws s3api head-bucket --bucket "$BUCKET" --region "$REGION" --profile "$PROFILE" 2>/dev/null || {
    aws s3 mb s3://"$BUCKET" --region "$REGION" --profile "$PROFILE"
}

# 2. Enable Versioning
echo "Enabling versioning..."
aws s3api put-bucket-versioning \
    --bucket "$BUCKET" \
    --versioning-configuration Status=Enabled \
    --profile "$PROFILE"

# 3. Enable default encryption (SSE-S3)
echo "Enabling SSE-S3 encryption..."
aws s3api put-bucket-encryption \
    --bucket "$BUCKET" \
    --server-side-encryption-configuration '{
        "Rules": [
            {
                "ApplyServerSideEncryptionByDefault": {
                    "SSEAlgorithm": "AES256"
                },
                "BucketKeyEnabled": true
            }
        ]
    }' \
    --profile "$PROFILE"

# 4. Block public access
echo "Blocking public access..."
aws s3api put-public-access-block \
    --bucket "$BUCKET" \
    --public-access-block-configuration \
    BlockPublicAcls=true,IgnorePublicAcls=true,BlockPublicPolicy=true,RestrictPublicBuckets=true \
    --profile "$PROFILE"

# 5. Apply bucket policy to deny non-TLS
echo "Applying TLS-only bucket policy..."
cat > /tmp/bucket-policy.json << 'EOF'
{
    "Version": "2012-10-17",
    "Statement": [
        {
            "Sid": "DenyInsecureConnections",
            "Effect": "Deny",
            "Principal": "*",
            "Action": "s3:*",
            "Resource": [
                "arn:aws:s3:::"#;

/// The setup script from there to where the bucket's name goes.
pub const SETUP_SCRIPT_09: &'static str = r#"",
                "arn:aws:s3:::"#;

/// The setup script from there to where the bucket's name goes.
pub const SETUP_SCRIPT_10: &'static str = r#"/*"
            ],
            "Condition": {
                "Bool": {
                    "aws:SecureTransport": "false"
                }
            }
        }
    ]
}
EOF

aws s3api put-bucket-policy \
    --bucket "$BUCKET" \
    --policy file:///tmp/bucket-policy.json \
    --profile "$PROFILE"

rm /tmp/bucket-policy.json

# 6. Optional Lifecycle (optimization without deletion)
if [ "$ENABLE_LIFECYCLE" = "true" ]; then
    echo "Setting up lifecycle policy..."
    
    # Check if Glacier transition should be included (999999 means never)
    if [ "$DAYS_TO_GLACIER" -eq 999999 ]; then
        # Only Standard-IA transition, no Glacier
        cat > /tmp/lifecycle.json << EOF
{
    "Rules": [
        {
            "ID": "OptimizeStorage",
            "Status": "Enabled",
            "Filter": {},
            "Transitions": [
                {
                    "Days": $DAYS_TO_IA,
                    "StorageClass": "STANDARD_IA"
                }
            ]
        }
    ]
}
EOF
    else
        # Include both Standard-IA and Glacier transitions
        cat > /tmp/lifecycle.json << EOF
{
    "Rules": [
        {
            "ID": "OptimizeStorage",
            "Status": "Enabled",
            "Filter": {},
            "Transitions": [
                {
                    "Days": $DAYS_TO_IA,
                    "StorageClass": "STANDARD_IA"
                },
                {
                    "Days": $DAYS_TO_GLACIER,
                    "StorageClass": "GLACIER"
                }
            ]
        }
    ]
}
EOF
    fi

    aws s3api put-bucket-lifecycle-configuration \
        --bucket "$BUCKET" \
        --lifecycle-configuration file:///tmp/lifecycle.json \
        --profile "$PROFILE"

    rm /tmp/lifecycle.json
fi

# 7. Create IAM users and get credentials
echo "=== CREDENTIALS START ==="

# Create admin user if not exists
if ! aws iam get-user --user-name "$ADMIN_USER" --profile "$PROFILE" >/dev/null 2>&1; then
    echo "Creating admin user: $ADMIN_USER"
    aws iam create-user --user-name "$ADMIN_USER" --profile "$PROFILE"
fi

# Create admin policy
cat > /tmp/admin-policy.json << 'EOF'
{
    "Version": "2012-10-17",
    "Statement": [
        {
            "Effect": "Allow",
            "Action": [
                "s3:ListBucket",
                "s3:ListBucketVersions",
                "s3:GetBucketLocation"
            ],
            "Resource": "arn:aws:s3:::"#;

/// The setup script from there to where the bucket's name goes.
pub const SETUP_SCRIPT_11: &'static str = r#""
        },
        {
            "Effect": "Allow",
            "Action": [
                "s3:GetObject",
                "s3:GetObjectVersion",
                "s3:PutObject",
                "s3:PutObjectAcl",
                "s3:DeleteObject",
                "s3:DeleteObjectVersion",
                "s3:AbortMultipartUpload",
                "s3:ListMultipartUploadParts"
            ],
            "Resource": "arn:aws:s3:::"#;

/// The setup script from there to where the bucket's name goes.
pub const SETUP_SCRIPT_12: &'static str = r#"/*"
        }
    ]
}
EOF

# Attach admin policy
aws iam put-user-policy \
    --user-name "$ADMIN_USER" \
    --policy-name "BackupAdminPolicy" \
    --policy-document file:///tmp/admin-policy.json \
    --profile "$PROFILE"

# Create access key for admin
echo "Creating access key for $ADMIN_USER..."
ADMIN_CREDS=$(aws iam create-access-key --user-name "$ADMIN_USER" --output json --profile "$PROFILE")
ADMIN_KEY=$(echo "$ADMIN_CREDS" | jq -r '.AccessKey.AccessKeyId')
ADMIN_SECRET=$(echo "$ADMIN_CREDS" | jq -r '.AccessKey.SecretAccessKey')

echo "ADMIN_CREDENTIALS:$ADMIN_KEY:$ADMIN_SECRET"

# Create employee users
for employee in $EMPLOYEES; do
    echo "Setting up user: $employee"
    
    # Create employee user if not exists
    if ! aws iam get-user --user-name "$employee" --profile "$PROFILE" >/dev/null 2>&1; then
        aws iam create-user --user-name "$employee" --profile "$PROFILE"
    fi

    # Employee-specific policy
    cat > /tmp/employee-policy.json << EOF
{
    "Version": "2012-10-17",
    "Statement": [
        {
            "Effect": "Allow",
            "Action": [
                "s3:ListBucket"
            ],
            "Resource": "arn:aws:s3:::"#;

/// The setup script from there to where the bucket's name goes.
pub const SETUP_SCRIPT_13: &'static str = r#"",
            "Condition": {
                "StringLike": {
                    "s3:prefix": [
                        "$employee/*",
                        "$employee"
                    ]
                }
            }
        },
        {
            "Effect": "Allow",
            "Action": [
                "s3:GetObject",
                "s3:GetObjectVersion",
                "s3:PutObject",
                "s3:PutObjectAcl",
                "s3:DeleteObject",
                "s3:DeleteObjectVersion",
                "s3:AbortMultipartUpload",
                "s3:ListMultipartUploadParts"
            ],
            "Resource": [
                "arn:aws:s3:::"#;

/// The setup script from there to where the bucket's name goes.
pub const SETUP_SCRIPT_14: &'static str = r#"/$employee/*",
                "arn:aws:s3:::"#;

/// The rest of the setup script.
pub const SETUP_SCRIPT_15: &'static str = r#"/$employee"
            ]
        }
    ]
}
EOF

    # Attach employee policy
    aws iam put-user-policy \
        --user-name "$employee" \
        --policy-name "BackupEmployeePolicy" \
        --policy-document file:///tmp/employee-policy.json \
        --profile "$PROFILE"

    # Create access key for employee
    EMPLOYEE_CREDS=$(aws iam create-access-key --user-name "$employee" --output json --profile "$PROFILE")
    EMPLOYEE_KEY=$(echo "$EMPLOYEE_CREDS" | jq -r '.AccessKey.AccessKeyId')
    EMPLOYEE_SECRET=$(echo "$EMPLOYEE_CREDS" | jq -r '.AccessKey.SecretAccessKey')

    echo "EMPLOYEE_CREDENTIALS:$employee:$EMPLOYEE_KEY:$EMPLOYEE_SECRET"
done

echo "=== CREDENTIALS END ==="

# Cleanup
rm -f /tmp/admin-policy.json /tmp/employee-policy.json

echo "Setup completed successfully!"
"#;

/// How a truth value is written in a script.
pub open spec fn truth_text(value: bool) -> Seq<char> {
    if value {
        "true"@
    } else {
        "false"@
    }
}

/// The pieces of the setup script, in order.
pub open spec fn setup_script_pieces() -> Seq<Seq<char>> {
    seq![
        SETUP_SCRIPT_00@,
        SETUP_SCRIPT_01@,
        SETUP_SCRIPT_02@,
        SETUP_SCRIPT_03@,
        SETUP_SCRIPT_04@,
        SETUP_SCRIPT_05@,
        SETUP_SCRIPT_06@,
        SETUP_SCRIPT_07@,
        SETUP_SCRIPT_08@,
        SETUP_SCRIPT_09@,
        SETUP_SCRIPT_10@,
        SETUP_SCRIPT_11@,
        SETUP_SCRIPT_12@,
        SETUP_SCRIPT_13@,
        SETUP_SCRIPT_14@,
        SETUP_SCRIPT_15@,
    ]
}

/// The script that sets up the bucket `bucket_name` in `region` for the
/// administrator `admin_username` and for `employees`, with the
/// command-line profile `profile`: the pieces of the script with these
/// values between them. The names of the employees stand in a row with
/// spaces between.
pub open spec fn setup_script_text(
    bucket_name: Seq<char>,
    region: Seq<char>,
    admin_username: Seq<char>,
    lifecycle_config: LifecycleConfig,
    employees: Seq<Seq<char>>,
    profile: Seq<char>,
) -> Seq<char> {
    filled(
        setup_script_pieces(),
        seq![
            bucket_name,
            region,
            admin_username,
            joined_with(employees, " "@),
            profile,
            truth_text(lifecycle_config.enabled),
            decimal_text(lifecycle_config.days_to_ia as nat),
            decimal_text(lifecycle_config.days_to_glacier as nat),
            bucket_name,
            bucket_name,
            bucket_name,
            bucket_name,
            bucket_name,
            bucket_name,
            bucket_name,
        ],
    )
}

/// Writes the script that sets up a shared bucket and its users.
pub fn generate_setup_script(
    bucket_name: &str,
    region: &str,
    admin_username: &str,
    lifecycle_config: &LifecycleConfig,
    employees: &[String],
    profile: &str,
) -> (script: String)
    ensures
        script@ == setup_script_text(
            bucket_name@,
            region@,
            admin_username@,
            *lifecycle_config,
            string_texts(employees@),
            profile@,
        ),
{
    let employees_str = join(employees, " ");
    let enabled = if lifecycle_config.enabled {
        "true"
    } else {
        "false"
    };
    let days_to_ia = decimal_string(lifecycle_config.days_to_ia as u64);
    let days_to_glacier = decimal_string(lifecycle_config.days_to_glacier as u64);
    let pieces: [&str; 16] = [
        SETUP_SCRIPT_00,
        SETUP_SCRIPT_01,
        SETUP_SCRIPT_02,
        SETUP_SCRIPT_03,
        SETUP_SCRIPT_04,
        SETUP_SCRIPT_05,
        SETUP_SCRIPT_06,
        SETUP_SCRIPT_07,
        SETUP_SCRIPT_08,
        SETUP_SCRIPT_09,
        SETUP_SCRIPT_10,
        SETUP_SCRIPT_11,
        SETUP_SCRIPT_12,
        SETUP_SCRIPT_13,
        SETUP_SCRIPT_14,
        SETUP_SCRIPT_15,
    ];
    let values: [&str; 15] = [
        bucket_name,
        region,
        admin_username,
        employees_str.as_str(),
        profile,
        enabled,
        days_to_ia.as_str(),
        days_to_glacier.as_str(),
        bucket_name,
        bucket_name,
        bucket_name,
        bucket_name,
        bucket_name,
        bucket_name,
        bucket_name,
    ];
    assert(str_texts(pieces@) =~= setup_script_pieces());
    assert(str_texts(values@) =~= seq![
        bucket_name@,
        region@,
        admin_username@,
        joined_with(string_texts(employees@), " "@),
        profile@,
        truth_text(lifecycle_config.enabled),
        decimal_text(lifecycle_config.days_to_ia as nat),
        decimal_text(lifecycle_config.days_to_glacier as nat),
        bucket_name@,
        bucket_name@,
        bucket_name@,
        bucket_name@,
        bucket_name@,
        bucket_name@,
        bucket_name@,
    ]);
    fill(pieces.as_slice(), values.as_slice())
}

/// The name of the command-line client.
pub const AWS_COMMAND: &'static str = "aws";

/// The command by which the cloud's command-line client is called: `aws`,
/// to be found by the system. It never fails.
pub fn get_aws_command() -> (command: Result<String, String>)
    ensures
        command matches Ok(name) && name@ == AWS_COMMAND@,
{
    Ok(String::from_str(AWS_COMMAND))
}

/// The name of the command-line profile that is used where none is named.
pub const DEFAULT_PROFILE: &'static str = "default";

/// The command-line profile to use: the one named, or `default`.
pub fn profile_or_default(profile_name: Option<String>) -> (profile: String)
    ensures
        profile@ == (match profile_name {
            Some(name) => name@,
            None => DEFAULT_PROFILE@,
        }),
{
    match profile_name {
        Some(name) => name,
        None => String::from_str(DEFAULT_PROFILE),
    }
}

/// What the client is told to learn who is calling, for a profile or
/// without one.
pub open spec fn identity_arguments(profile: Option<Seq<char>>) -> Seq<Seq<char>> {
    match profile {
        Some(name) => seq!["sts"@, "get-caller-identity"@, "--profile"@, name],
        None => seq!["sts"@, "get-caller-identity"@],
    }
}

/// The arguments that ask the client who is calling.
pub fn identity_args(profile: Option<&str>) -> (args: Vec<String>)
    ensures
        string_texts(args@) == identity_arguments(
            match profile {
                Some(name) => Some(name@),
                None => None,
            },
        ),
{
    let mut args: Vec<String> = Vec::new();
    assert(string_texts(args@) =~= Seq::<Seq<char>>::empty());
    push_text(&mut args, "sts");
    push_text(&mut args, "get-caller-identity");
    match profile {
        Some(name) => {
            push_text(&mut args, "--profile");
            push_text(&mut args, name);
            assert(string_texts(args@) =~= identity_arguments(Some(name@)));
        },
        None => {
            assert(string_texts(args@) =~= identity_arguments(None));
        },
    }
    args
}

/// What the client is told to set `key` to `value` in `profile`.
pub open spec fn configure_arguments(profile: Seq<char>, key: Seq<char>, value: Seq<char>) -> Seq<
    Seq<char>,
> {
    seq!["configure"@, "set"@, "profile."@ + profile + "."@ + key, value]
}

/// The arguments that set `key` to `value` in `profile`.
pub fn configure_args(profile: &str, key: &str, value: &str) -> (args: Vec<String>)
    ensures
        string_texts(args@) == configure_arguments(profile@, key@, value@),
{
    let mut setting = String::from_str("profile.");
    setting.append(profile);
    setting.append(".");
    setting.append(key);
    let mut args: Vec<String> = Vec::new();
    assert(string_texts(args@) =~= Seq::<Seq<char>>::empty());
    push_text(&mut args, "configure");
    push_text(&mut args, "set");
    push_text(&mut args, setting.as_str());
    push_text(&mut args, value);
    assert(string_texts(args@) =~= configure_arguments(profile@, key@, value@));
    args
}

/// The settings that make up the credentials of a profile, in the order in
/// which they are set: each a key and its value.
pub open spec fn credential_settings_of(
    access_key_id: Seq<char>,
    secret_access_key: Seq<char>,
    region: Seq<char>,
) -> Seq<(Seq<char>, Seq<char>)> {
    seq![
        ("aws_access_key_id"@, access_key_id),
        ("aws_secret_access_key"@, secret_access_key),
        ("region"@, region),
        ("output"@, "json"@),
    ]
}

/// The models of a list of settings, in order.
pub open spec fn setting_texts(settings: Seq<(String, String)>) -> Seq<(Seq<char>, Seq<char>)> {
    settings.map_values(|setting: (String, String)| (setting.0@, setting.1@))
}

/// The settings that make up the credentials of a profile.
pub fn credential_settings(access_key_id: &str, secret_access_key: &str, region: &str) -> (settings:
    Vec<(String, String)>)
    ensures
        setting_texts(settings@) == credential_settings_of(
            access_key_id@,
            secret_access_key@,
            region@,
        ),
{
    let mut settings: Vec<(String, String)> = Vec::new();
    settings.push((String::from_str("aws_access_key_id"), String::from_str(access_key_id)));
    settings.push((String::from_str("aws_secret_access_key"), String::from_str(secret_access_key)));
    settings.push((String::from_str("region"), String::from_str(region)));
    settings.push((String::from_str("output"), String::from_str("json")));
    assert(setting_texts(settings@) =~= credential_settings_of(
        access_key_id@,
        secret_access_key@,
        region@,
    ));
    settings
}

/// What is said when setting `key` fails.
pub open spec fn configuration_failure(key: Seq<char>, stderr: Seq<char>) -> Seq<char> {
    "AWS CLI configuration failed for "@ + key + ": "@ + stderr
}

/// What is said when setting `key` fails with `stderr`.
pub fn configuration_failure_message(key: &str, stderr: &str) -> (message: String)
    ensures
        message@ == configuration_failure(key@, stderr@),
{
    let mut message = String::from_str("AWS CLI configuration failed for ");
    message.append(key);
    message.append(": ");
    message.append(stderr);
    message
}

/// What is said when the credentials of `profile` have been set and found
/// good.
pub open spec fn configured(profile: Seq<char>, region: Seq<char>) -> Seq<char> {
    "AWS credentials configured and validated successfully! Profile: "@ + profile + ", Region: "@
        + region
}

/// What is said when the credentials of `profile` have been set and found
/// good.
pub fn configured_message(profile: &str, region: &str) -> (message: String)
    ensures
        message@ == configured(profile@, region@),
{
    let mut message = String::from_str(
        "AWS credentials configured and validated successfully! Profile: ",
    );
    message.append(profile);
    message.append(", Region: ");
    message.append(region);
    message
}

/// The line that opens the credentials in the output of the setup script.
pub const CREDENTIALS_START: &'static str = "=== CREDENTIALS START ===";

/// The line that closes them.
pub const CREDENTIALS_END: &'static str = "=== CREDENTIALS END ===";

/// What begins the line with the administrator's keys.
pub const ADMIN_CREDENTIALS: &'static str = "ADMIN_CREDENTIALS:";

/// What begins a line with an employee's keys.
pub const EMPLOYEE_CREDENTIALS: &'static str = "EMPLOYEE_CREDENTIALS:";

/// What is said when the output holds no keys for the administrator.
pub const NO_ADMIN_CREDENTIALS: &'static str =
    "Failed to parse admin credentials from setup output";

/// The keys of one user that the setup script reports.
pub struct Keys {
    pub name: Seq<char>,
    pub access_key_id: Seq<char>,
    pub secret_access_key: Seq<char>,
}

/// What has been read of the output of the setup script.
pub struct Credentials {
    /// Whether the line that opens the credentials has come.
    pub open: bool,
    /// Whether the line that closes them has come: nothing behind it counts.
    pub closed: bool,
    pub admin_key: Seq<char>,
    pub admin_secret: Seq<char>,
    pub employees: Seq<Keys>,
}

/// Before the first line.
pub open spec fn no_credentials() -> Credentials {
    Credentials {
        open: false,
        closed: false,
        admin_key: Seq::empty(),
        admin_secret: Seq::empty(),
        employees: Seq::empty(),
    }
}

/// What has been read after one more line. The closing line ends the
/// reading, wherever it stands. Between the opening line and the closing
/// line, a line that begins with `ADMIN_CREDENTIALS:` and has three fields
/// or more between colons gives the administrator's keys, and one that
/// begins with `EMPLOYEE_CREDENTIALS:` and has four fields or more gives an
/// employee's name and keys.
pub open spec fn read_credentials_line(so_far: Credentials, line: Seq<char>) -> Credentials {
    let fields = split(line, ':');
    if so_far.closed {
        so_far
    } else if line == CREDENTIALS_START@ {
        Credentials { open: true, ..so_far }
    } else if line == CREDENTIALS_END@ {
        Credentials { closed: true, ..so_far }
    } else if !so_far.open {
        so_far
    } else if starts_with(line, ADMIN_CREDENTIALS@) {
        if fields.len() >= 3 {
            Credentials { admin_key: fields[1], admin_secret: fields[2], ..so_far }
        } else {
            so_far
        }
    } else if starts_with(line, EMPLOYEE_CREDENTIALS@) {
        if fields.len() >= 4 {
            Credentials {
                employees: so_far.employees.push(
                    Keys {
                        name: fields[1],
                        access_key_id: fields[2],
                        secret_access_key: fields[3],
                    },
                ),
                ..so_far
            }
        } else {
            so_far
        }
    } else {
        so_far
    }
}

/// What is read of `lines`, in order.
pub open spec fn credentials_in(lines: Seq<Seq<char>>) -> Credentials
    decreases lines.len(),
{
    if lines.len() == 0 {
        no_credentials()
    } else {
        read_credentials_line(credentials_in(lines.drop_last()), lines.last())
    }
}

/// The keys of a list of employees, in order.
pub open spec fn employee_keys(employees: Seq<Employee>) -> Seq<Keys> {
    employees.map_values(
        |employee: Employee|
            Keys {
                name: employee.name@,
                access_key_id: employee.access_key_id@,
                secret_access_key: employee.secret_access_key@,
            },
    )
}

/// Every employee is new: known by the user name that is their name, with
/// no configuration made for them yet.
pub open spec fn all_new(employees: Seq<Employee>) -> bool {
    forall|i: int|
        0 <= i < employees.len() ==> (#[trigger] employees[i]).username@ == employees[i].name@
            && !employees[i].rclone_config_generated
}

/// What the setup script has read so far, as it is held while reading.
struct CredentialsRead {
    open: bool,
    closed: bool,
    admin_key: String,
    admin_secret: String,
    employees: Vec<Employee>,
}

impl View for CredentialsRead {
    type V = Credentials;

    closed spec fn view(&self) -> Credentials {
        Credentials {
            open: self.open,
            closed: self.closed,
            admin_key: self.admin_key@,
            admin_secret: self.admin_secret@,
            employees: employee_keys(self.employees@),
        }
    }
}

/// Tells whether `line` is the text `whole`.
fn is_text(line: &[char], whole: &[char]) -> (yes: bool)
    ensures
        yes == (line@ == whole@),
{
    if line.len() != whole.len() {
        return false;
    }
    let yes = matches_at(line, whole, 0);
    proof {
        assert(line@.subrange(0, whole@.len() as int) =~= line@);
    }
    yes
}

/// Reads the account that the setup script has made from what the script
/// printed: the administrator's keys and the employees with theirs. Each
/// employee gets a fresh identifier and the current instant as the time of
/// their making. Fails if the output gives no key or no secret for the
/// administrator.
pub fn parse_setup_output(
    output: &str,
    bucket_name: String,
    region: String,
    lifecycle_config: LifecycleConfig,
) -> (account: Result<AwsConfig, String>)
    ensures
        ({
            let read = credentials_in(lines_of(output@));
            if read.admin_key.len() == 0 || read.admin_secret.len() == 0 {
                account matches Err(message) && message@ == NO_ADMIN_CREDENTIALS@
            } else {
                account matches Ok(made) && made.aws_access_key_id@ == read.admin_key
                    && made.aws_secret_access_key@ == read.admin_secret && made.aws_region == region
                    && !made.aws_sso_configured && made.bucket_name == bucket_name
                    && made.lifecycle_config == lifecycle_config && employee_keys(made.employees@)
                    == read.employees && all_new(made.employees@)
            }
        }),
{
    let chars = to_chars(output);
    let lines = split_lines(chars.as_slice());
    let start = to_chars(CREDENTIALS_START);
    let end = to_chars(CREDENTIALS_END);
    let admin = to_chars(ADMIN_CREDENTIALS);
    let employee = to_chars(EMPLOYEE_CREDENTIALS);
    let now = utc_now_millis();
    let mut read = CredentialsRead {
        open: false,
        closed: false,
        admin_key: String::new(),
        admin_secret: String::new(),
        employees: Vec::new(),
    };
    let mut i: usize = 0;
    proof {
        assert(texts(lines@).take(0) =~= Seq::<Seq<char>>::empty());
        assert(read@.employees =~= Seq::<Keys>::empty());
        assert(read@.admin_key =~= Seq::<char>::empty());
        assert(read@.admin_secret =~= Seq::<char>::empty());
    }
    while i < lines.len()
        invariant
            i <= lines.len(),
            start@ == CREDENTIALS_START@,
            end@ == CREDENTIALS_END@,
            admin@ == ADMIN_CREDENTIALS@,
            employee@ == EMPLOYEE_CREDENTIALS@,
            read@ == credentials_in(texts(lines@).take(i as int)),
            all_new(read.employees@),
        decreases lines.len() - i,
    {
        let line = lines[i];
        proof {
            let seen = texts(lines@).take(i + 1);
            assert(seen.drop_last() =~= texts(lines@).take(i as int));
            assert(seen.last() == line@);
        }
        if read.closed {
        } else if is_text(line, start.as_slice()) {
            read.open = true;
        } else if is_text(line, end.as_slice()) {
            read.closed = true;
        } else if !read.open {
        } else if matches_at(line, admin.as_slice(), 0) {
            let fields = split_on(line, ':');
            assert(texts(fields@).len() == fields@.len());
            if fields.len() >= 3 {
                assert(texts(fields@)[1] == fields@[1]@);
                assert(texts(fields@)[2] == fields@[2]@);
                read.admin_key = string_of(fields[1]);
                read.admin_secret = string_of(fields[2]);
            }
        } else if matches_at(line, employee.as_slice(), 0) {
            let fields = split_on(line, ':');
            assert(texts(fields@).len() == fields@.len());
            if fields.len() >= 4 {
                assert(texts(fields@)[1] == fields@[1]@);
                assert(texts(fields@)[2] == fields@[2]@);
                assert(texts(fields@)[3] == fields@[3]@);
                let ghost before = employee_keys(read.employees@);
                let ghost held = read.employees@;
                let name = string_of(fields[1]);
                let made = Employee {
                    id: fresh_id(),
                    username: name.clone(),
                    name,
                    access_key_id: string_of(fields[2]),
                    secret_access_key: string_of(fields[3]),
                    rclone_config_generated: false,
                    created_at: now,
                };
                read.employees.push(made);
                proof {
                    assert(read.employees@ =~= held.push(made));
                    assert(employee_keys(read.employees@) =~= before.push(
                        Keys {
                            name: fields@[1]@,
                            access_key_id: fields@[2]@,
                            secret_access_key: fields@[3]@,
                        },
                    ));
                }
            }
        }
        i = i + 1;
    }
    assert(texts(lines@).take(lines.len() as int) =~= texts(lines@));
    if read.admin_key.as_str().is_empty() || read.admin_secret.as_str().is_empty() {
        return Err(String::from_str(NO_ADMIN_CREDENTIALS));
    }
    Ok(
        AwsConfig {
            aws_access_key_id: read.admin_key,
            aws_secret_access_key: read.admin_secret,
            aws_region: region,
            aws_sso_configured: false,
            bucket_name,
            lifecycle_config,
            employees: read.employees,
        },
    )
}

/// The configuration of the transfer tool for a user with these keys: the
/// remote `aws`, which reads its keys from the file and keeps what it
/// stores private.
pub open spec fn employee_config_text(
    access_key_id: Seq<char>,
    secret_access_key: Seq<char>,
    region: Seq<char>,
) -> Seq<char> {
    "[aws]\ntype = s3\nprovider = AWS\nenv_auth = false\naccess_key_id = "@ + access_key_id
        + "\nsecret_access_key = "@ + secret_access_key + "\nregion = "@ + region
        + "\nacl = private\n"@
}

/// Writes the configuration of the transfer tool for `employee`.
pub fn generate_employee_rclone_config(employee: &Employee, region: &str) -> (config: Result<
    String,
    String,
>)
    ensures
        config matches Ok(text) && text@ == employee_config_text(
            employee.access_key_id@,
            employee.secret_access_key@,
            region@,
        ),
{
    let mut text = String::from_str(
        "[aws]\ntype = s3\nprovider = AWS\nenv_auth = false\naccess_key_id = ",
    );
    text.append(employee.access_key_id.as_str());
    text.append("\nsecret_access_key = ");
    text.append(employee.secret_access_key.as_str());
    text.append("\nregion = ");
    text.append(region);
    text.append("\nacl = private\n");
    Ok(text)
}

/// What is said when no employee has the identifier asked for.
pub const EMPLOYEE_NOT_FOUND: &'static str = "Employee not found";

/// The identifiers of a list of employees, in order.
pub open spec fn employee_ids(employees: Seq<Employee>) -> Seq<Seq<char>> {
    employees.map_values(|employee: Employee| employee.id@)
}

/// The first of `employees` whose identifier is `id`.
pub fn find_employee<'a>(employees: &'a [Employee], id: &str) -> (found: Option<&'a Employee>)
    ensures
        match first_with(employee_ids(employees@), id@) {
            Some(at) => found == Some(&employees@[at]),
            None => found is None,
        },
{
    let wanted = String::from_str(id);
    let mut i: usize = 0;
    assert(employee_ids(employees@).take(0) =~= Seq::<Seq<char>>::empty());
    while i < employees.len()
        invariant
            i <= employees.len(),
            wanted@ == id@,
            first_with(employee_ids(employees@).take(i as int), id@) is None,
        decreases employees.len() - i,
    {
        proof {
            let seen = employee_ids(employees@).take(i + 1);
            assert(seen.drop_last() =~= employee_ids(employees@).take(i as int));
            assert(seen.last() == employees@[i as int].id@);
        }
        if employees[i].id == wanted {
            proof {
                crate::config::lemma_found_stays(employee_ids(employees@), id@, i + 1);
            }
            return Some(&employees[i]);
        }
        i = i + 1;
    }
    assert(employee_ids(employees@).take(employees.len() as int) =~= employee_ids(employees@));
    None
}

/// The employee `employee_id` of the profile `profile_id`: the first such
/// employee of the first such profile. Fails if there is no such profile,
/// or it has no cloud account, or the account has no such employee.
pub fn get_employee_credentials<'a>(
    config: &'a AppConfig,
    profile_id: &str,
    employee_id: &str,
) -> (employee: Result<&'a Employee, String>)
    ensures
        match first_with(profile_ids(config.profiles@), profile_id@) {
            None => employee matches Err(message) && message@ == EMPLOYEE_NOT_FOUND@,
            Some(at) => match config.profiles@[at].aws_config {
                None => employee matches Err(message) && message@ == EMPLOYEE_NOT_FOUND@,
                Some(account) => match first_with(employee_ids(account.employees@), employee_id@) {
                    None => employee matches Err(message) && message@ == EMPLOYEE_NOT_FOUND@,
                    Some(i) => employee == Ok::<&Employee, String>(&account.employees@[i]),
                },
            },
        },
{
    match find_profile(config.profiles.as_slice(), profile_id) {
        Some(at) => match &config.profiles[at].aws_config {
            Some(account) => match find_employee(account.employees.as_slice(), employee_id) {
                Some(employee) => Ok(employee),
                None => Err(String::from_str(EMPLOYEE_NOT_FOUND)),
            },
            None => Err(String::from_str(EMPLOYEE_NOT_FOUND)),
        },
        None => Err(String::from_str(EMPLOYEE_NOT_FOUND)),
    }
}

} // verus!
