//! Building a person's full profile document from their stored row.
//!
//! The content identifiers (email id, character id, image id) and the raw
//! 64-bit character hash come from the deployment's content hasher, which
//! runs outside this core; the masking, hex rendering, whitespace stripping,
//! name extraction and URL building all happen — and are stated — here.

use vstd::prelude::*;
use vstd::bytes::{spec_u64_to_le_bytes, u64_to_le_bytes};
use vstd::string::StringExecFns;
use crate::account::{User, Date, Timestamp};
use crate::encoding::{hex_of, hex_encode, base64_of};
use crate::mii::{MiiData, spec_mii_name};
use crate::mii_util::get_mii_img_url;
use crate::text::{dec_i32_of, strip_whitespace, spec_strip_whitespace};
use crate::xml::YesNoVal;

verus! {

/// The bit masked out of the raw character hash before it is rendered.
pub const MII_HASH_MASK: u64 = 0xefff_ffff_ffff_ffff;

/// The content identifiers the deployment's hasher derives for a profile:
/// one for the email address, one for the cleaned character data (with the
/// raw 64-bit hash it abbreviates), and one for the image URL.
#[derive(Clone, Copy, PartialEq, Eq, Structural, Debug)]
pub struct ProfileIds {
    pub email_id: u32,
    pub mii_id: u32,
    pub mii_hash: u64,
    pub image_url_id: u32,
}

pub struct EmailInfoOwnProfileData {
    pub address: String,
    pub id: u32,
    pub parent: YesNoVal,
    pub primary: YesNoVal,
    pub reachable: YesNoVal,
    pub email_type: String,
    pub updated_by: String,
    pub validated: YesNoVal,
    pub validated_date: Option<Timestamp>,
}

pub struct MiiImage {
    pub cached_url: String,
    pub id: u32,
    pub url: String,
    pub image_type: String,
}

pub struct MiiImages {
    pub mii_image: MiiImage,
}

pub struct MiiDataOwnProfileData {
    pub status: String,
    pub data: String,
    pub id: u32,
    pub mii_hash: String,
    pub mii_images: MiiImages,
    pub name: String,
    pub primary: YesNoVal,
}

pub struct GetOwnProfileData {
    pub active_flag: YesNoVal,
    pub birth_date: Date,
    pub country: String,
    pub create_date: Timestamp,
    pub gender: String,
    pub language: String,
    pub updated: Timestamp,
    pub marketing_flag: YesNoVal,
    pub off_device_flag: YesNoVal,
    pub pid: i32,
    pub email: EmailInfoOwnProfileData,
    pub mii: MiiDataOwnProfileData,
    pub region: i32,
    pub tz_name: String,
    pub user_id: String,
    pub utc_offset: String,
}

/// Assemble the profile document: stored fields pass through, the character
/// data is compacted, the masked character hash is rendered as hex, and the
/// character's name is read out of the compacted data (or INVALID).
pub fn build_profile(user: User, utc_offset: String, mii_base_url: &str, ids: ProfileIds)
    -> (r: GetOwnProfileData)
    ensures
        r.active_flag == YesNoVal(true),
        r.pid == user.pid,
        r.user_id == user.username,
        r.gender == user.gender,
        r.birth_date == user.birthdate,
        r.country == user.country,
        r.create_date == user.creation_date,
        r.tz_name == user.timezone,
        r.language == user.language,
        r.updated == user.updated,
        r.marketing_flag == YesNoVal(user.marketing_allowed),
        r.off_device_flag == YesNoVal(user.off_device_allowed),
        r.region == user.region,
        r.utc_offset == utc_offset,
        r.email.address == user.email,
        r.email.id == ids.email_id,
        r.email.validated == YesNoVal(user.email_verified_since is Some),
        r.email.validated_date == user.email_verified_since,
        r.email.email_type@ == "DEFAULT"@,
        r.email.updated_by@ == "USER"@,
        r.email.reachable == YesNoVal(true),
        r.email.primary == YesNoVal(true),
        r.email.parent == YesNoVal(false),
        r.mii.id == ids.mii_id,
        r.mii.mii_hash@ == hex_of(spec_u64_to_le_bytes((ids.mii_hash & MII_HASH_MASK) as u64)),
        r.mii.primary == YesNoVal(true),
        r.mii.data@ == spec_strip_whitespace(user.mii_data@),
        r.mii.status@ == "COMPLETED"@,
        r.mii.mii_images.mii_image.image_type@ == "standard"@,
        r.mii.mii_images.mii_image.id == ids.image_url_id,
        r.mii.mii_images.mii_image.url@ == mii_base_url@ + "/"@ + dec_i32_of(user.pid as int)
            + "/main."@ + "tga"@,
        r.mii.mii_images.mii_image.cached_url@ == r.mii.mii_images.mii_image.url@,
        forall|v: Seq<u8>| spec_strip_whitespace(user.mii_data@) == base64_of(v)
            ==> (match spec_mii_name(v) {
            Some(nm) => r.mii.name@ == nm,
            None => r.mii.name@ == "INVALID"@,
        }),
        (forall|v: Seq<u8>| spec_strip_whitespace(user.mii_data@) != base64_of(v))
            ==> r.mii.name@ == "INVALID"@,
{
    let mii_data = strip_whitespace(user.mii_data.as_str());
    let masked = render_mii_hash(ids);
    let name = match MiiData::read(mii_data.as_str()) {
        Some(m) => m.name,
        None => String::from_str("INVALID"),
    };
    let image_url = get_mii_img_url(mii_base_url, user.pid, "tga");
    let cached_url = image_url.clone();
    GetOwnProfileData {
        active_flag: YesNoVal(true),
        pid: user.pid,
        user_id: user.username,
        gender: user.gender,
        birth_date: user.birthdate,
        country: user.country,
        create_date: user.creation_date,
        tz_name: user.timezone,
        language: user.language,
        updated: user.updated,
        marketing_flag: YesNoVal(user.marketing_allowed),
        email: EmailInfoOwnProfileData {
            id: ids.email_id,
            address: user.email,
            validated: YesNoVal(user.email_verified_since.is_some()),
            validated_date: user.email_verified_since,
            email_type: String::from_str("DEFAULT"),
            updated_by: String::from_str("USER"),
            reachable: YesNoVal(true),
            primary: YesNoVal(true),
            parent: YesNoVal(false),
        },
        mii: MiiDataOwnProfileData {
            id: ids.mii_id,
            mii_hash: masked,
            name,
            primary: YesNoVal(true),
            data: mii_data,
            status: String::from_str("COMPLETED"),
            mii_images: MiiImages {
                mii_image: MiiImage {
                    image_type: String::from_str("standard"),
                    id: ids.image_url_id,
                    url: image_url,
                    cached_url,
                },
            },
        },
        off_device_flag: YesNoVal(user.off_device_allowed),
        region: user.region,
        utc_offset,
    }
}

/// The hex rendering of the masked character hash.
fn render_mii_hash(ids: ProfileIds) -> (r: String)
    ensures
        r@ == hex_of(spec_u64_to_le_bytes((ids.mii_hash & MII_HASH_MASK) as u64)),
{
    let masked: u64 = ids.mii_hash & MII_HASH_MASK;
    let bytes = u64_to_le_bytes(masked);
    hex_encode(bytes.as_slice())
}

} // verus!
