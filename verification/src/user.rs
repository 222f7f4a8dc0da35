//! The account-information document the companion API serves for the
//! authenticated account.

use vstd::prelude::*;
use vstd::string::StringExecFns;
use crate::account::{User, Date, Timestamp};
use crate::encoding::base64_of;
use crate::mii::{MiiData, spec_mii_name};
use crate::text::{dec_i32_of, strip_newlines, spec_strip_newlines};

verus! {

pub struct EmailInfo {
    pub address: String,
}

pub struct TimezoneInfo {
    pub name: String,
}

pub struct MiiInfo {
    pub data: String,
    pub name: String,
    pub image_url: String,
}

pub struct FlagsInfo {
    pub marketing: bool,
}

pub struct DiscordInfo {
    pub id: Option<String>,
}

pub struct StripeInfo {
    pub tier_name: Option<String>,
    pub tier_level: Option<i32>,
}

pub struct ConnectionsInfo {
    pub discord: DiscordInfo,
    pub stripe: StripeInfo,
}

pub struct UserInfoResponse {
    pub deleted: bool,
    pub access_level: i32,
    pub server_access_level: String,
    pub pid: i32,
    pub creation_date: Timestamp,
    pub updated: Timestamp,
    pub username: String,
    pub birthdate: Date,
    pub gender: String,
    pub country: String,
    pub email: EmailInfo,
    pub timezone: TimezoneInfo,
    pub mii: MiiInfo,
    pub flags: FlagsInfo,
    pub connections: ConnectionsInfo,
}

/// Assemble the account-information document: stored fields pass through,
/// the character name is read out of the data with line breaks stripped, and
/// the image URL points into the configured CDN.
pub fn get_user(user: User, cdn_url: &str) -> (r: UserInfoResponse)
    ensures
        r.deleted == false,
        r.access_level == user.account_level,
        r.server_access_level@ == "test"@,
        r.pid == user.pid,
        r.creation_date == user.creation_date,
        r.updated == user.updated,
        r.username@ == user.username@,
        r.birthdate == user.birthdate,
        r.gender == user.gender,
        r.country == user.country,
        r.email.address == user.email,
        r.timezone.name == user.timezone,
        r.mii.data == user.mii_data,
        r.mii.image_url@ == "https://"@ + cdn_url@ + "/mii/"@ + dec_i32_of(user.pid as int)
            + "/normal_face.png"@,
        forall|v: Seq<u8>| spec_strip_newlines(user.mii_data@) == base64_of(v)
            ==> (match spec_mii_name(v) {
            Some(nm) => r.mii.name@ == nm,
            None => r.mii.name@ == "INVALID"@,
        }),
        (forall|v: Seq<u8>| spec_strip_newlines(user.mii_data@) != base64_of(v))
            ==> r.mii.name@ == "INVALID"@,
        r.flags.marketing == user.marketing_allowed,
        r.connections.discord.id is None,
        r.connections.stripe.tier_name is None,
        r.connections.stripe.tier_level is None,
{
    let cleaned = strip_newlines(user.mii_data.as_str());
    let name = match MiiData::read(cleaned.as_str()) {
        Some(m) => m.name,
        None => String::from_str("INVALID"),
    };
    let mut image_url = String::from_str("https://");
    image_url.append(cdn_url);
    image_url.append("/mii/");
    crate::text::push_dec_i32(&mut image_url, user.pid);
    image_url.append("/normal_face.png");
    proof {
        assert(image_url@ =~= "https://"@ + cdn_url@ + "/mii/"@ + dec_i32_of(user.pid as int)
            + "/normal_face.png"@);
    }
    UserInfoResponse {
        deleted: false,
        access_level: user.account_level,
        server_access_level: String::from_str("test"),
        pid: user.pid,
        creation_date: user.creation_date,
        updated: user.updated,
        username: user.username,
        birthdate: user.birthdate,
        gender: user.gender,
        country: user.country,
        email: EmailInfo { address: user.email },
        timezone: TimezoneInfo { name: user.timezone },
        mii: MiiInfo { data: user.mii_data, name, image_url },
        flags: FlagsInfo { marketing: user.marketing_allowed },
        connections: ConnectionsInfo {
            discord: DiscordInfo { id: None },
            stripe: StripeInfo { tier_name: None, tier_level: None },
        },
    }
}

} // verus!
