//! The payload that GitHub gives for the latest release of a repository.
//!
//! Of all its members two are read here: the text that holds the
//! version, and the assets with their names and download addresses.

use vstd::prelude::*;
use crate::config::package::GhVerMember;

verus! {

/// The latest release of a repository.
#[derive(Debug, Clone, PartialEq, Eq)]
pub struct ReleaseLatest {
    pub url: String,
    pub assets_url: String,
    pub upload_url: String,
    pub html_url: String,
    pub id: usize,
    pub author: User,
    pub node_id: String,
    pub tag_name: String,
    pub target_commitish: String,
    pub name: String,
    pub draft: bool,
    pub prerelease: bool,
    pub created_at: String,
    pub published_at: String,
    pub assets: Vec<Asset>,
    pub tarball_url: String,
    pub zipball_url: String,
    pub body: String,
    pub reactions: Reaction,
}

/// An account, as a release payload describes it.
#[derive(Debug, Clone, PartialEq, Eq)]
pub struct User {
    pub login: String,
    pub id: usize,
    pub node_id: String,
    pub avatar_url: String,
    pub gravatar_id: String,
    pub url: String,
    pub html_url: String,
    pub followers_url: String,
    pub following_url: String,
    pub gists_url: String,
    pub starred_url: String,
    pub subscriptions_url: String,
    pub organizations_url: String,
    pub repos_url: String,
    pub events_url: String,
    pub received_events_url: String,
    pub ty: String,
    pub site_admin: bool,
}

/// A file that belongs to a release.
#[derive(Debug, Clone, PartialEq, Eq)]
pub struct Asset {
    pub url: String,
    pub id: usize,
    pub node_id: String,
    pub name: String,
    pub label: String,
    pub uploader: String,
    pub content_type: String,
    pub state: String,
    pub size: usize,
    pub download_count: usize,
    pub created_at: String,
    pub updated_at: String,
    pub browser_download_url: String,
}

/// The reactions to a release, counted.
#[derive(Debug, Clone, PartialEq, Eq)]
pub struct Reaction {
    pub url: String,
    pub total_count: usize,
    pub plus_one: usize,
    pub minus_one: usize,
    pub laugh: usize,
    pub hooray: usize,
    pub confused: usize,
    pub heart: usize,
    pub rocket: usize,
    pub eyes: usize,
}

/// What is read of an asset.
pub struct AssetModel {
    pub name: Seq<char>,
    pub browser_download_url: Seq<char>,
}

impl View for Asset {
    type V = AssetModel;

    open spec fn view(&self) -> AssetModel {
        AssetModel { name: self.name@, browser_download_url: self.browser_download_url@ }
    }
}

/// What is read of a release.
pub struct ReleaseModel {
    pub tag_name: Seq<char>,
    pub name: Seq<char>,
    pub assets: Seq<AssetModel>,
}

impl View for ReleaseLatest {
    type V = ReleaseModel;

    open spec fn view(&self) -> ReleaseModel {
        ReleaseModel {
            tag_name: self.tag_name@,
            name: self.name@,
            assets: Seq::new(self.assets@.len(), |i: int| self.assets@[i]@),
        }
    }
}

impl ReleaseModel {
    /// The text of the member that holds the version.
    pub open spec fn member_text(self, member: GhVerMember) -> Seq<char> {
        match member {
            GhVerMember::TagName => self.tag_name,
            GhVerMember::Name => self.name,
        }
    }

    /// The names of the assets, in their order.
    pub open spec fn asset_names(self) -> Seq<Seq<char>> {
        Seq::new(self.assets.len(), |i: int| self.assets[i].name)
    }
}

impl ReleaseLatest {
    /// The text of the member that holds the version.
    pub fn member_text(&self, member: GhVerMember) -> (r: &str)
        ensures
            r@ == self@.member_text(member),
    {
        match member {
            GhVerMember::TagName => self.tag_name.as_str(),
            GhVerMember::Name => self.name.as_str(),
        }
    }
}

} // verus!
