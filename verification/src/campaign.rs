use crate::clock::Timestamp;
use crate::typedid::{TypedId, TypedIdMarker};
use vstd::prelude::*;

verus! {

/// Marks the identifiers of campaigns.
#[derive(Copy, Clone, Debug, PartialEq, Eq)]
pub struct CampaignMarker;

pub type CampaignId = TypedId<CampaignMarker>;

#[derive(Clone, Debug, PartialEq, Eq)]
pub struct Campaign {
    pub id: CampaignId,
    pub name: String,
    pub created_at: Timestamp,
    pub modified_at: Timestamp,
}

impl TypedIdMarker for CampaignMarker {
    open spec fn spec_tag() -> Seq<char> {
        "CPN"@
    }

    fn tag() -> &'static str {
        "CPN"
    }
}

/// What a caller sends to have a campaign created.
#[derive(Clone, Debug, PartialEq, Eq)]
pub struct CreateCampaignBody {
    pub name: String,
}

/// A new campaign with the given name and a fresh identifier, created and
/// last modified at `now`.
pub fn create_campaign(name: String, now: Timestamp) -> (campaign: Campaign)
    ensures
        campaign == (Campaign { id: campaign.id, name, created_at: now, modified_at: now }),
{
    Campaign { id: CampaignId::new(), name, created_at: now, modified_at: now }
}

} // verus!
