//! What a facility's own description says of its video maps.
use crate::loaders::euroscope::line::text_model;
use crate::package::display::{AtcDisplayItem, AtcDisplayItemModel};
use crate::text::{find, index_of, names_of, Named};
use vstd::prelude::*;

verus! {

/// A video map as a facility lists it.
#[derive(Debug)]
pub struct CrcVideoMapRef {
    pub id: String,
    pub name: String,
    pub tags: Vec<String>,
    pub short_name: Option<String>,
    pub source_file_name: String,
    pub stars_brightness_category: String,
    pub stars_id: Option<i32>,
    pub stars_always_visible: bool,
    pub tdm_only: bool,
}

pub struct CrcVideoMapRefModel {
    pub id: Seq<char>,
    pub name: Seq<char>,
    pub tags: Seq<Seq<char>>,
    pub short_name: Option<Seq<char>>,
    pub source_file_name: Seq<char>,
    pub stars_brightness_category: Seq<char>,
    pub stars_id: Option<i32>,
    pub stars_always_visible: bool,
    pub tdm_only: bool,
}

impl DeepView for CrcVideoMapRef {
    type V = CrcVideoMapRefModel;

    open spec fn deep_view(&self) -> CrcVideoMapRefModel {
        CrcVideoMapRefModel {
            id: self.id@,
            name: self.name@,
            tags: self.tags.deep_view(),
            short_name: text_model(self.short_name),
            source_file_name: self.source_file_name@,
            stars_brightness_category: self.stars_brightness_category@,
            stars_id: self.stars_id,
            stars_always_visible: self.stars_always_visible,
            tdm_only: self.tdm_only,
        }
    }
}

impl Named for CrcVideoMapRef {
    open spec fn name_view(&self) -> Seq<char> {
        self.id@
    }

    fn name(&self) -> (r: &String) {
        &self.id
    }
}

/// The identifiers of video maps, in order.
pub open spec fn map_ids(maps: Seq<CrcVideoMapRefModel>) -> Seq<Seq<char>> {
    Seq::new(maps.len(), |i: int| maps[i].id)
}

/// The two lists of maps of a display: the maps of the ordinary mode, and
/// the maps of the top-down mode.
pub struct MapLists {
    pub ordinary: Seq<AtcDisplayItemModel>,
    pub top_down: Seq<AtcDisplayItemModel>,
}

/// The lists with one more map asked for by its identifier. A map that the
/// facility does not list is left out. A map that it lists is shown in the
/// top-down mode, and in the ordinary mode too unless it is for the top-down
/// mode only; it is visible from the start if the facility says that it
/// always is.
pub open spec fn listed_with(lists: MapLists, maps: Seq<CrcVideoMapRefModel>, id: Seq<char>) -> MapLists {
    match index_of(map_ids(maps), id) {
        None => lists,
        Some(i) => {
            let item = AtcDisplayItemModel::MapItem { id, visible: maps[i].stars_always_visible };
            MapLists {
                ordinary: if maps[i].tdm_only {
                    lists.ordinary
                } else {
                    lists.ordinary.push(item)
                },
                top_down: lists.top_down.push(item),
            }
        },
    }
}

/// The lists after all of `ids` are asked for in their order.
pub open spec fn listed(maps: Seq<CrcVideoMapRefModel>, ids: Seq<Seq<char>>) -> MapLists
    decreases ids.len(),
{
    if ids.len() == 0 {
        MapLists { ordinary: Seq::empty(), top_down: Seq::empty() }
    } else {
        listed_with(listed(maps, ids.drop_last()), maps, ids.last())
    }
}

/// Lists the maps of a display for its two modes, from the identifiers of
/// the maps that it asks for and the maps that the facility lists. Of two
/// maps with one identifier the facility's first counts.
pub fn get_tdm_maps_from_crc(video_map_ids: &Vec<String>, map_refs: &Vec<CrcVideoMapRef>) -> (r: (
    Vec<AtcDisplayItem>,
    Vec<AtcDisplayItem>,
))
    ensures
        r.0.deep_view() == listed(map_refs.deep_view(), video_map_ids.deep_view()).ordinary,
        r.1.deep_view() == listed(map_refs.deep_view(), video_map_ids.deep_view()).top_down,
{
    let mut display_items: Vec<AtcDisplayItem> = Vec::new();
    let mut display_items_tdm: Vec<AtcDisplayItem> = Vec::new();
    let ghost ids = video_map_ids.deep_view();
    let ghost maps = map_refs.deep_view();
    let mut n: usize = 0;
    proof {
        assert(display_items.deep_view() =~= Seq::empty());
    }
    while n < video_map_ids.len()
        invariant
            n <= video_map_ids.len(),
            ids == video_map_ids.deep_view(),
            maps == map_refs.deep_view(),
            names_of(map_refs@) == map_ids(maps),
            listed(maps, ids.take(n as int)) == (MapLists {
                ordinary: display_items.deep_view(),
                top_down: display_items_tdm.deep_view(),
            }),
        decreases video_map_ids.len() - n,
    {
        let id = &video_map_ids[n];
        let ghost ordinary = display_items.deep_view();
        let ghost top_down = display_items_tdm.deep_view();
        proof {
            let head = ids.take(n + 1);
            assert(head.drop_last() =~= ids.take(n as int));
        }
        if let Some(i) = find(map_refs, id) {
            let visible = map_refs[i].stars_always_visible;
            let item = AtcDisplayItem::MapItem { id: id.clone(), visible };
            display_items_tdm.push(item);
            assert(display_items_tdm.deep_view() =~= top_down.push(item.deep_view()));
            if !map_refs[i].tdm_only {
                let item = AtcDisplayItem::MapItem { id: id.clone(), visible };
                display_items.push(item);
                assert(display_items.deep_view() =~= ordinary.push(item.deep_view()));
            }
        }
        n += 1;
    }
    assert(ids.take(video_map_ids.len() as int) =~= ids);
    (display_items, display_items_tdm)
}

} // verus!
