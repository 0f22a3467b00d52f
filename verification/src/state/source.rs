//! The state of one source, and searches that come back in parts.

use vstd::prelude::*;
use vstd::string::*;
use crate::command::browse::{
    Browse,
    DeletePlaylist,
    GetAlbumMetadata,
    GetSearchCriteria,
    RenamePlaylist,
    Search,
    SetServiceOption,
};
use crate::data::item::{SearchResults, SourceItem, SourceItemView};
use crate::data::option::{ServiceOption, ServiceOptionType, WithOptions};
use crate::data::source::{SourceInfo, SourceInfoView};
use crate::views::{lemma_views_add, views};

verus! {

/// What is known of a source.
#[derive(Debug)]
pub struct SourceData {
    /// The description of the source.
    pub info: SourceInfo,
}

impl View for SourceData {
    type V = SourceInfoView;

    open spec fn view(&self) -> SourceInfoView {
        self.info@
    }
}

impl SourceData {
    /// What is known of a source that a system has just described.
    pub fn get(info: SourceInfo) -> (r: Self)
        ensures
            r.info == info,
    {
        SourceData { info }
    }

    /// The command that lists what the source holds at its top.
    pub fn browse(&self) -> (c: Browse)
        ensures
            c.source_id == self.info.source_id,
            c.container_id is None,
            c.range is None,
    {
        Browse { source_id: self.info.source_id, container_id: None, range: None }
    }

    /// The command that lists what a container of the source holds.
    pub fn browse_container(&self, container_id: &str, range: Option<(usize, usize)>) -> (c: Browse)
        ensures
            c.source_id == self.info.source_id,
            c.container_id matches Some(id) && id@ == container_id@,
            c.range == range,
    {
        Browse {
            source_id: self.info.source_id,
            container_id: Some(String::from_str(container_id)),
            range,
        }
    }

    /// The command that asks in which ways the source can be searched.
    pub fn search_criteria(&self) -> (c: GetSearchCriteria)
        ensures
            c.source_id == self.info.source_id,
    {
        GetSearchCriteria { source_id: self.info.source_id }
    }

    /// The command that searches the source. It names no range: the system
    /// answers in parts of its own size, and a `SearchCollector` puts the
    /// parts together.
    pub fn search(&self, search: &str, criteria: &str) -> (c: Search)
        ensures
            c.source_id == self.info.source_id,
            c.search@ == search@,
            c.criteria@ == criteria@,
            c.range is None,
    {
        Search {
            source_id: self.info.source_id,
            search: String::from_str(search),
            criteria: String::from_str(criteria),
            range: None,
        }
    }

    /// The command that gives a playlist of the source another name.
    pub fn rename_playlist(&self, container_id: &str, new_name: &str) -> (c: RenamePlaylist)
        ensures
            c.source_id == self.info.source_id,
            c.container_id@ == container_id@,
            c.name@ == new_name@,
    {
        RenamePlaylist {
            source_id: self.info.source_id,
            container_id: String::from_str(container_id),
            name: String::from_str(new_name),
        }
    }

    /// The command that deletes a playlist of the source.
    pub fn delete_playlist(&self, container_id: &str) -> (c: DeletePlaylist)
        ensures
            c.source_id == self.info.source_id,
            c.container_id@ == container_id@,
    {
        DeletePlaylist {
            source_id: self.info.source_id,
            container_id: String::from_str(container_id),
        }
    }

    /// The command that asks for the art of an album of the source.
    pub fn album_metadata(&self, container_id: &str) -> (c: GetAlbumMetadata)
        ensures
            c.source_id == self.info.source_id,
            c.container_id@ == container_id@,
    {
        GetAlbumMetadata {
            source_id: self.info.source_id,
            container_id: String::from_str(container_id),
        }
    }

    /// The command that sets a service option of the source.
    pub fn set_service_option(&self, option: ServiceOption) -> (c: SetServiceOption)
        ensures
            c.source_id == self.info.source_id,
            c.option == option,
    {
        SetServiceOption { source_id: self.info.source_id, option }
    }
}

/// What a search has returned so far.
#[derive(Debug)]
pub struct SearchCollector {
    /// The items of all parts, in the order in which they came.
    pub items: Vec<SourceItem>,
    /// The options that came with the first part that had any.
    pub options: Vec<ServiceOptionType>,
}

/// A `SearchCollector` as plain values.
pub ghost struct SearchCollectorView {
    pub items: Seq<SourceItemView>,
    pub options: Seq<ServiceOptionType>,
}

impl View for SearchCollector {
    type V = SearchCollectorView;

    open spec fn view(&self) -> SearchCollectorView {
        SearchCollectorView { items: views(self.items@), options: self.options@ }
    }
}

/// What is collected after one more part of a search: its options where
/// none were there before, and its items behind those that were there.
pub open spec fn after_part(
    c: SearchCollectorView,
    items: Seq<SourceItemView>,
    options: Seq<ServiceOptionType>,
) -> SearchCollectorView {
    SearchCollectorView {
        items: c.items + items,
        options: if c.options.len() == 0 {
            options
        } else {
            c.options
        },
    }
}

/// Whether a search goes on after a part: not after an empty part, and not
/// once as many items are there as the part says there are in all. A part
/// that says there are none in all does not end the search by its count.
pub open spec fn search_goes_on(collected: nat, part: nat, count: nat) -> bool {
    part > 0 && !(count != 0 && collected + part >= count)
}

impl SearchCollector {
    /// Nothing collected yet.
    pub fn new() -> (r: Self)
        ensures
            r@ == (SearchCollectorView { items: Seq::empty(), options: Seq::empty() }),
    {
        let r = SearchCollector { items: Vec::new(), options: Vec::new() };
        assert(views(r.items@) =~= Seq::empty());
        r
    }

    /// Takes one more part of a search, and says whether to ask for
    /// another.
    pub fn absorb(&mut self, part: WithOptions<SearchResults>) -> (more: bool)
        ensures
            final(self)@ == after_part(old(self)@, part.value@.source_items, part.options@),
            more == search_goes_on(
                old(self)@.items.len(),
                part.value@.source_items.len(),
                part.value.count as nat,
            ),
    {
        let WithOptions { value, options } = part;
        let SearchResults { count, source_items } = value;
        if self.options.len() == 0 {
            self.options = options;
        }
        let found = source_items.len();
        let mut source_items = source_items;
        proof {
            lemma_views_add(self.items@, source_items@);
        }
        self.items.append(&mut source_items);
        found > 0 && !(count != 0 && self.items.len() >= count)
    }

    /// What the search has returned in all.
    pub fn finish(self) -> (r: WithOptions<Vec<SourceItem>>)
        ensures
            views(r.value@) == self@.items,
            r.options@ == self@.options,
    {
        WithOptions { value: self.items, options: self.options }
    }
}

} // verus!
