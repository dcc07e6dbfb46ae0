//! The objectives of the game configuration: what an objective asks of the
//! player, and the requirements that narrow what counts towards it. Every
//! string is held as its UTF-8 bytes.
use vstd::prelude::*;
use crate::bytes::push_bytes;
use crate::utils::LocaleId;

verus! {

/// The value that a missing count of the configuration takes: `u32::MAX`.
pub fn u32_max() -> (r: u32)
    ensures
        r == u32::MAX,
{
    u32::MAX
}

/// An objective, by its kind.
#[derive(Debug, Clone)]
pub enum ObjectiveDescriptor {
    AccumulateXCal(ObjectiveDescriptorAccumulateXCal),
    AccumulateXMoves(ObjectiveDescriptorAccumulateXMoves),
    ActivateCoopMode(ObjectiveDescriptorBase),
    AddXSongsToAPlaylist(ObjectiveDescriptorAddXSongsToAPlaylist),
    BeatWDFBoss(ObjectiveDescriptorBase),
    ChangeCustoItemXTimes(ObjectiveDescriptorChangeCustoItemXTimes),
    CompleteXQuests(ObjectiveDescriptorCompleteXQuests),
    DanceXSeconds(ObjectiveDescriptorDanceXSeconds),
    FinishXPlaylist(ObjectiveDescriptorFinishXPlaylist),
    GatherXStars(ObjectiveDescriptorGatherXStars),
    LinkedToUplay(ObjectiveDescriptorBase),
    OpenAnthologyMode(ObjectiveDescriptorBase),
    OpenPostcardsGallery(ObjectiveDescriptorBase),
    OpenStickerAlbum(ObjectiveDescriptorBase),
    OpenVideoGallery(ObjectiveDescriptorBase),
    PlayDailyQuestsForXDays(ObjectiveDescriptorPlayDailyQuestsForXDays),
    PlayGachaXTimes(ObjectiveDescriptorPlayGachaXTimes),
    PlayPreviousJD(ObjectiveDescriptorBase),
    PlayWDFTournament(ObjectiveDescriptorPlayWDFTournament),
    PlayXMaps(ObjectiveDescriptorPlayXMaps),
    PlayXWDFTournamentRounds(ObjectiveDescriptorPlayXWDFTournamentRounds),
    ReachRankX(ObjectiveDescriptorReachRankX),
    RenewJDUSub(ObjectiveDescriptorBase),
    SwitchSweatMode(ObjectiveDescriptorBase),
    UnlockUplayRewardAliasPack1(ObjectiveDescriptorBase),
    UnlockUplayRewardAliasPack2(ObjectiveDescriptorBase),
    UnlockXPortraitBorders(ObjectiveDescriptorUnlockXPortraitBorders),
    UnlockXStickers(ObjectiveDescriptorUnlockXStickers),
    WinWDFTeamBattle(ObjectiveDescriptorBase),
}

/// What every objective holds: its description, its requirements and two flags.
#[derive(Debug, Clone)]
pub struct ObjectiveDescriptorBase {
    pub class: Option<Vec<u8>>,
    pub description: LocaleId,
    pub description_raw: Vec<u8>,
    pub components: Vec<ObjectiveDescriptorComponent>,
    pub is_static: bool,
    pub exclude_from_upload: bool,
}

/// An objective to burn a number of calories, in one session or over several.
#[derive(Debug, Clone)]
pub struct ObjectiveDescriptorAccumulateXCal {
    pub class: Option<Vec<u8>>,
    pub description: LocaleId,
    pub description_raw: Vec<u8>,
    pub components: Vec<ObjectiveDescriptorComponent>,
    pub is_static: bool,
    pub exclude_from_upload: bool,
    pub calories_amount: u32,
    pub in_one_session: bool,
}

/// An objective to dance a number of moves of the given categories.
#[derive(Debug, Clone)]
pub struct ObjectiveDescriptorAccumulateXMoves {
    pub class: Option<Vec<u8>>,
    pub description: LocaleId,
    pub description_raw: Vec<u8>,
    pub components: Vec<ObjectiveDescriptorComponent>,
    pub is_static: bool,
    pub exclude_from_upload: bool,
    pub moves_count: u32,
    pub categories_to_count: Vec<u32>,
}

/// An objective to add a number of songs to a playlist.
#[derive(Debug, Clone)]
pub struct ObjectiveDescriptorAddXSongsToAPlaylist {
    pub class: Option<Vec<u8>>,
    pub description: LocaleId,
    pub description_raw: Vec<u8>,
    pub components: Vec<ObjectiveDescriptorComponent>,
    pub is_static: bool,
    pub exclude_from_upload: bool,
    pub songs_added_count: u32,
}

/// An objective to change customisation items a number of times.
#[derive(Debug, Clone)]
pub struct ObjectiveDescriptorChangeCustoItemXTimes {
    pub class: Option<Vec<u8>>,
    pub description: LocaleId,
    pub description_raw: Vec<u8>,
    pub components: Vec<ObjectiveDescriptorComponent>,
    pub is_static: bool,
    pub exclude_from_upload: bool,
    pub custo_item_changes_count: u32,
}

/// An objective to complete a number of quests.
#[derive(Debug, Clone)]
pub struct ObjectiveDescriptorCompleteXQuests {
    pub class: Option<Vec<u8>>,
    pub description: LocaleId,
    pub description_raw: Vec<u8>,
    pub components: Vec<ObjectiveDescriptorComponent>,
    pub is_static: bool,
    pub exclude_from_upload: bool,
    pub quests_count: u32,
}

/// An objective to dance for a number of seconds.
#[derive(Debug, Clone)]
pub struct ObjectiveDescriptorDanceXSeconds {
    pub class: Option<Vec<u8>>,
    pub description: LocaleId,
    pub description_raw: Vec<u8>,
    pub components: Vec<ObjectiveDescriptorComponent>,
    pub is_static: bool,
    pub exclude_from_upload: bool,
    pub dance_time: u32,
}

/// An objective to finish a number of playlists.
#[derive(Debug, Clone)]
pub struct ObjectiveDescriptorFinishXPlaylist {
    pub class: Option<Vec<u8>>,
    pub description: LocaleId,
    pub description_raw: Vec<u8>,
    pub components: Vec<ObjectiveDescriptorComponent>,
    pub is_static: bool,
    pub exclude_from_upload: bool,
    pub playlists_play_count: u32,
}

/// An objective to gather a number of stars.
#[derive(Debug, Clone)]
pub struct ObjectiveDescriptorGatherXStars {
    pub class: Option<Vec<u8>>,
    pub description: LocaleId,
    pub description_raw: Vec<u8>,
    pub components: Vec<ObjectiveDescriptorComponent>,
    pub is_static: bool,
    pub exclude_from_upload: bool,
    pub stars_count: u32,
}

/// An objective to play the daily quests a number of days in a row.
#[derive(Debug, Clone)]
pub struct ObjectiveDescriptorPlayDailyQuestsForXDays {
    pub class: Option<Vec<u8>>,
    pub description: LocaleId,
    pub description_raw: Vec<u8>,
    pub components: Vec<ObjectiveDescriptorComponent>,
    pub is_static: bool,
    pub exclude_from_upload: bool,
    pub consecutive_days: u32,
}

/// An objective to play the gift machine a number of times.
#[derive(Debug, Clone)]
pub struct ObjectiveDescriptorPlayGachaXTimes {
    pub class: Option<Vec<u8>>,
    pub description: LocaleId,
    pub description_raw: Vec<u8>,
    pub components: Vec<ObjectiveDescriptorComponent>,
    pub is_static: bool,
    pub exclude_from_upload: bool,
    pub gacha_plays_count: u32,
    pub unlock_all_acceptable_gacha_items: bool,
}

/// An objective to play World Dance Floor tournaments.
#[derive(Debug, Clone)]
pub struct ObjectiveDescriptorPlayWDFTournament {
    pub class: Option<Vec<u8>>,
    pub description: LocaleId,
    pub description_raw: Vec<u8>,
    pub components: Vec<ObjectiveDescriptorComponent>,
    pub is_static: bool,
    pub exclude_from_upload: bool,
    pub tournament_count: Option<u32>,
}

/// An objective to play a number of maps.
#[derive(Debug, Clone)]
pub struct ObjectiveDescriptorPlayXMaps {
    pub class: Option<Vec<u8>>,
    pub description: LocaleId,
    pub description_raw: Vec<u8>,
    pub components: Vec<ObjectiveDescriptorComponent>,
    pub is_static: bool,
    pub exclude_from_upload: bool,
    pub maps_count: u32,
}

/// An objective to play a number of World Dance Floor rounds.
#[derive(Debug, Clone)]
pub struct ObjectiveDescriptorPlayXWDFTournamentRounds {
    pub class: Option<Vec<u8>>,
    pub description: LocaleId,
    pub description_raw: Vec<u8>,
    pub components: Vec<ObjectiveDescriptorComponent>,
    pub is_static: bool,
    pub exclude_from_upload: bool,
    pub rounds_count: u32,
}

/// An objective to reach a rank.
#[derive(Debug, Clone)]
pub struct ObjectiveDescriptorReachRankX {
    pub class: Option<Vec<u8>>,
    pub description: LocaleId,
    pub description_raw: Vec<u8>,
    pub components: Vec<ObjectiveDescriptorComponent>,
    pub is_static: bool,
    pub exclude_from_upload: bool,
    pub rank_to_reach: u32,
}

/// An objective to unlock a number of portrait borders.
#[derive(Debug, Clone)]
pub struct ObjectiveDescriptorUnlockXPortraitBorders {
    pub class: Option<Vec<u8>>,
    pub description: LocaleId,
    pub description_raw: Vec<u8>,
    pub components: Vec<ObjectiveDescriptorComponent>,
    pub is_static: bool,
    pub exclude_from_upload: bool,
    pub portrait_border_count: u32,
}

/// An objective to unlock a number of stickers.
#[derive(Debug, Clone)]
pub struct ObjectiveDescriptorUnlockXStickers {
    pub class: Option<Vec<u8>>,
    pub description: LocaleId,
    pub description_raw: Vec<u8>,
    pub components: Vec<ObjectiveDescriptorComponent>,
    pub is_static: bool,
    pub exclude_from_upload: bool,
    pub stickers_count: u32,
    pub all_stickers: Option<bool>,
}

/// A requirement of an objective, by its kind.
#[derive(Debug, Clone)]
pub enum ObjectiveDescriptorComponent {
    CustoItemTypeRequirement(ObjectiveDescriptorComponentCustoItemTypeRequirement),
    GachaItemTypeRequirement(ObjectiveDescriptorComponentGachaItemTypeRequirement),
    MapCoachCountRequirement(ObjectiveDescriptorComponentMapCoachCountRequirement),
    MapLaunchLocationRequirement(ObjectiveDescriptorComponentMapLaunchLocationRequirement),
    MapMovesRequirement(ObjectiveDescriptorComponentMapMovesRequirement),
    MapNameRequirement(ObjectiveDescriptorComponentMapNameRequirement),
    MapPlaymodeRequirement(ObjectiveDescriptorComponentMapPlaymodeRequirement),
    MapScoreRequirement(ObjectiveDescriptorComponentMapScoreRequirement),
    MapTagsRequirement(ObjectiveDescriptorComponentMapTagsRequirement),
    OnlyOnline(ObjectiveDescriptorComponentBase),
    OnlyOnUnlimitedSongs(ObjectiveDescriptorComponentBase),
    PlaylistIdRequirement(ObjectiveDescriptorComponentPlaylistIdRequirement),
    ScoringModeRequirement(ObjectiveDescriptorComponentScoringModeRequirement),
    SearchLabelsRequirement(ObjectiveDescriptorComponentSearchLabelsRequirement),
    StickerIdRequirement(ObjectiveDescriptorComponentStickerIdRequirement),
}

/// What every requirement holds: whether it counts only distinct values.
#[derive(Debug, Clone)]
pub struct ObjectiveDescriptorComponentBase {
    pub class: Option<Vec<u8>>,
    pub only_diff_values: bool,
}

/// A requirement on the types of customisation items.
#[derive(Debug, Clone)]
pub struct ObjectiveDescriptorComponentCustoItemTypeRequirement {
    pub class: Option<Vec<u8>>,
    pub only_diff_values: bool,
    pub acceptable_custo_item_types: Vec<u32>,
}

/// A requirement on the types of gift machine items.
#[derive(Debug, Clone)]
pub struct ObjectiveDescriptorComponentGachaItemTypeRequirement {
    pub class: Option<Vec<u8>>,
    pub only_diff_values: bool,
    pub acceptable_gacha_item_types: Vec<u32>,
}

/// A requirement on the number of coaches of a map.
#[derive(Debug, Clone)]
pub struct ObjectiveDescriptorComponentMapCoachCountRequirement {
    pub class: Option<Vec<u8>>,
    pub only_diff_values: bool,
    pub acceptable_coach_counts: Vec<u32>,
}

/// A requirement on where a map is launched from.
#[derive(Debug, Clone)]
pub struct ObjectiveDescriptorComponentMapLaunchLocationRequirement {
    pub class: Option<Vec<u8>>,
    pub only_diff_values: bool,
    pub acceptable_launch_contexts: Vec<Vec<u8>>,
    pub acceptable_launch_subcontexts: Vec<Vec<u8>>,
}

/// A requirement on the moves danced in a map.
#[derive(Debug, Clone)]
pub struct ObjectiveDescriptorComponentMapMovesRequirement {
    pub class: Option<Vec<u8>>,
    pub only_diff_values: bool,
    pub exact_moves_count: u32,
    pub min_moves_count: u32,
    pub max_moves_count: u32,
    pub all_map_moves_count: bool,
    pub only_map_last_move: bool,
    pub moves_in_a_row: bool,
    pub acceptable_categories: Vec<u32>,
}

/// A requirement on the names of the maps.
#[derive(Debug, Clone)]
pub struct ObjectiveDescriptorComponentMapNameRequirement {
    pub class: Option<Vec<u8>>,
    pub only_diff_values: bool,
    pub acceptable_map_names: Vec<Vec<u8>>,
}

/// A requirement on the modes a map is played in.
#[derive(Debug, Clone)]
pub struct ObjectiveDescriptorComponentMapPlaymodeRequirement {
    pub class: Option<Vec<u8>>,
    pub only_diff_values: bool,
    pub classic: bool,
    pub coop: bool,
    pub sweat: bool,
    pub playlist: bool,
    pub wdf: bool,
    pub kids: bool,
    pub anthology: Option<bool>,
}

/// A requirement on the score of a map.
#[derive(Debug, Clone)]
pub struct ObjectiveDescriptorComponentMapScoreRequirement {
    pub class: Option<Vec<u8>>,
    pub only_diff_values: bool,
    pub score: u32,
    pub better_than_dancer_of_the_week: bool,
}

/// A requirement on the tags of a map.
#[derive(Debug, Clone)]
pub struct ObjectiveDescriptorComponentMapTagsRequirement {
    pub class: Option<Vec<u8>>,
    pub only_diff_values: bool,
    pub acceptable_map_tags: Vec<Vec<u8>>,
    pub unacceptable_map_tags: Vec<Vec<u8>>,
}

/// A requirement on the playlists.
#[derive(Debug, Clone)]
pub struct ObjectiveDescriptorComponentPlaylistIdRequirement {
    pub class: Option<Vec<u8>>,
    pub only_diff_values: bool,
    pub acceptable_playlist_ids: Vec<Vec<u8>>,
}

/// A requirement on the scoring modes.
#[derive(Debug, Clone)]
pub struct ObjectiveDescriptorComponentScoringModeRequirement {
    pub class: Option<Vec<u8>>,
    pub only_diff_values: bool,
    pub acceptable_scoring_modes: Vec<u32>,
}

/// A requirement on the search labels.
#[derive(Debug, Clone)]
pub struct ObjectiveDescriptorComponentSearchLabelsRequirement {
    pub class: Option<Vec<u8>>,
    pub only_diff_values: bool,
    pub acceptable_label_loc_ids: Vec<LocaleId>,
    pub forbidden_label_loc_ids: Vec<LocaleId>,
}

/// A requirement on the stickers.
#[derive(Debug, Clone)]
pub struct ObjectiveDescriptorComponentStickerIdRequirement {
    pub class: Option<Vec<u8>>,
    pub only_diff_values: bool,
    pub acceptable_sticker_ids: Vec<u32>,
}

impl ObjectiveDescriptor {
    /// The locale id of the description of the objective, whatever its kind.
    pub open spec fn description_of(&self) -> LocaleId {
        match self {
            Self::AccumulateXCal(data) => data.description,
            Self::AccumulateXMoves(data) => data.description,
            Self::ActivateCoopMode(data) => data.description,
            Self::AddXSongsToAPlaylist(data) => data.description,
            Self::BeatWDFBoss(data) => data.description,
            Self::ChangeCustoItemXTimes(data) => data.description,
            Self::CompleteXQuests(data) => data.description,
            Self::DanceXSeconds(data) => data.description,
            Self::FinishXPlaylist(data) => data.description,
            Self::GatherXStars(data) => data.description,
            Self::LinkedToUplay(data) => data.description,
            Self::OpenAnthologyMode(data) => data.description,
            Self::OpenPostcardsGallery(data) => data.description,
            Self::OpenStickerAlbum(data) => data.description,
            Self::OpenVideoGallery(data) => data.description,
            Self::PlayDailyQuestsForXDays(data) => data.description,
            Self::PlayGachaXTimes(data) => data.description,
            Self::PlayPreviousJD(data) => data.description,
            Self::PlayWDFTournament(data) => data.description,
            Self::PlayXMaps(data) => data.description,
            Self::PlayXWDFTournamentRounds(data) => data.description,
            Self::ReachRankX(data) => data.description,
            Self::RenewJDUSub(data) => data.description,
            Self::SwitchSweatMode(data) => data.description,
            Self::UnlockUplayRewardAliasPack1(data) => data.description,
            Self::UnlockUplayRewardAliasPack2(data) => data.description,
            Self::UnlockXPortraitBorders(data) => data.description,
            Self::UnlockXStickers(data) => data.description,
            Self::WinWDFTeamBattle(data) => data.description,
        }
    }

    /// Whether the objective is static, whatever its kind.
    pub open spec fn is_static_of(&self) -> bool {
        match self {
            Self::AccumulateXCal(data) => data.is_static,
            Self::AccumulateXMoves(data) => data.is_static,
            Self::ActivateCoopMode(data) => data.is_static,
            Self::AddXSongsToAPlaylist(data) => data.is_static,
            Self::BeatWDFBoss(data) => data.is_static,
            Self::ChangeCustoItemXTimes(data) => data.is_static,
            Self::CompleteXQuests(data) => data.is_static,
            Self::DanceXSeconds(data) => data.is_static,
            Self::FinishXPlaylist(data) => data.is_static,
            Self::GatherXStars(data) => data.is_static,
            Self::LinkedToUplay(data) => data.is_static,
            Self::OpenAnthologyMode(data) => data.is_static,
            Self::OpenPostcardsGallery(data) => data.is_static,
            Self::OpenStickerAlbum(data) => data.is_static,
            Self::OpenVideoGallery(data) => data.is_static,
            Self::PlayDailyQuestsForXDays(data) => data.is_static,
            Self::PlayGachaXTimes(data) => data.is_static,
            Self::PlayPreviousJD(data) => data.is_static,
            Self::PlayWDFTournament(data) => data.is_static,
            Self::PlayXMaps(data) => data.is_static,
            Self::PlayXWDFTournamentRounds(data) => data.is_static,
            Self::ReachRankX(data) => data.is_static,
            Self::RenewJDUSub(data) => data.is_static,
            Self::SwitchSweatMode(data) => data.is_static,
            Self::UnlockUplayRewardAliasPack1(data) => data.is_static,
            Self::UnlockUplayRewardAliasPack2(data) => data.is_static,
            Self::UnlockXPortraitBorders(data) => data.is_static,
            Self::UnlockXStickers(data) => data.is_static,
            Self::WinWDFTeamBattle(data) => data.is_static,
        }
    }

    /// Whether the objective is left out of uploads, whatever its kind.
    pub open spec fn exclude_from_upload_of(&self) -> bool {
        match self {
            Self::AccumulateXCal(data) => data.exclude_from_upload,
            Self::AccumulateXMoves(data) => data.exclude_from_upload,
            Self::ActivateCoopMode(data) => data.exclude_from_upload,
            Self::AddXSongsToAPlaylist(data) => data.exclude_from_upload,
            Self::BeatWDFBoss(data) => data.exclude_from_upload,
            Self::ChangeCustoItemXTimes(data) => data.exclude_from_upload,
            Self::CompleteXQuests(data) => data.exclude_from_upload,
            Self::DanceXSeconds(data) => data.exclude_from_upload,
            Self::FinishXPlaylist(data) => data.exclude_from_upload,
            Self::GatherXStars(data) => data.exclude_from_upload,
            Self::LinkedToUplay(data) => data.exclude_from_upload,
            Self::OpenAnthologyMode(data) => data.exclude_from_upload,
            Self::OpenPostcardsGallery(data) => data.exclude_from_upload,
            Self::OpenStickerAlbum(data) => data.exclude_from_upload,
            Self::OpenVideoGallery(data) => data.exclude_from_upload,
            Self::PlayDailyQuestsForXDays(data) => data.exclude_from_upload,
            Self::PlayGachaXTimes(data) => data.exclude_from_upload,
            Self::PlayPreviousJD(data) => data.exclude_from_upload,
            Self::PlayWDFTournament(data) => data.exclude_from_upload,
            Self::PlayXMaps(data) => data.exclude_from_upload,
            Self::PlayXWDFTournamentRounds(data) => data.exclude_from_upload,
            Self::ReachRankX(data) => data.exclude_from_upload,
            Self::RenewJDUSub(data) => data.exclude_from_upload,
            Self::SwitchSweatMode(data) => data.exclude_from_upload,
            Self::UnlockUplayRewardAliasPack1(data) => data.exclude_from_upload,
            Self::UnlockUplayRewardAliasPack2(data) => data.exclude_from_upload,
            Self::UnlockXPortraitBorders(data) => data.exclude_from_upload,
            Self::UnlockXStickers(data) => data.exclude_from_upload,
            Self::WinWDFTeamBattle(data) => data.exclude_from_upload,
        }
    }

    /// The raw description of the objective, whatever its kind.
    pub open spec fn description_raw_of(&self) -> Seq<u8> {
        match self {
            Self::AccumulateXCal(data) => data.description_raw@,
            Self::AccumulateXMoves(data) => data.description_raw@,
            Self::ActivateCoopMode(data) => data.description_raw@,
            Self::AddXSongsToAPlaylist(data) => data.description_raw@,
            Self::BeatWDFBoss(data) => data.description_raw@,
            Self::ChangeCustoItemXTimes(data) => data.description_raw@,
            Self::CompleteXQuests(data) => data.description_raw@,
            Self::DanceXSeconds(data) => data.description_raw@,
            Self::FinishXPlaylist(data) => data.description_raw@,
            Self::GatherXStars(data) => data.description_raw@,
            Self::LinkedToUplay(data) => data.description_raw@,
            Self::OpenAnthologyMode(data) => data.description_raw@,
            Self::OpenPostcardsGallery(data) => data.description_raw@,
            Self::OpenStickerAlbum(data) => data.description_raw@,
            Self::OpenVideoGallery(data) => data.description_raw@,
            Self::PlayDailyQuestsForXDays(data) => data.description_raw@,
            Self::PlayGachaXTimes(data) => data.description_raw@,
            Self::PlayPreviousJD(data) => data.description_raw@,
            Self::PlayWDFTournament(data) => data.description_raw@,
            Self::PlayXMaps(data) => data.description_raw@,
            Self::PlayXWDFTournamentRounds(data) => data.description_raw@,
            Self::ReachRankX(data) => data.description_raw@,
            Self::RenewJDUSub(data) => data.description_raw@,
            Self::SwitchSweatMode(data) => data.description_raw@,
            Self::UnlockUplayRewardAliasPack1(data) => data.description_raw@,
            Self::UnlockUplayRewardAliasPack2(data) => data.description_raw@,
            Self::UnlockXPortraitBorders(data) => data.description_raw@,
            Self::UnlockXStickers(data) => data.description_raw@,
            Self::WinWDFTeamBattle(data) => data.description_raw@,
        }
    }

    /// Whatever its kind, an objective's flags and description are the fields
    /// of the objective of that kind that bear their names: `is_static` is its
    /// own `is_static` field (not `exclude_from_upload`), `exclude_from_upload`
    /// its own `exclude_from_upload`, and the description and raw description
    /// its own `description` and `description_raw`.
    pub proof fn lemma_fields_of_kind(o: ObjectiveDescriptor)
        ensures
            o matches ObjectiveDescriptor::AccumulateXCal(d) ==> o.is_static_of() == d.is_static
                && o.exclude_from_upload_of() == d.exclude_from_upload && o.description_of() == d.description
                && o.description_raw_of() == d.description_raw@,
            o matches ObjectiveDescriptor::AccumulateXMoves(d) ==> o.is_static_of() == d.is_static
                && o.exclude_from_upload_of() == d.exclude_from_upload && o.description_of() == d.description
                && o.description_raw_of() == d.description_raw@,
            o matches ObjectiveDescriptor::ActivateCoopMode(d) ==> o.is_static_of() == d.is_static
                && o.exclude_from_upload_of() == d.exclude_from_upload && o.description_of() == d.description
                && o.description_raw_of() == d.description_raw@,
            o matches ObjectiveDescriptor::AddXSongsToAPlaylist(d) ==> o.is_static_of() == d.is_static
                && o.exclude_from_upload_of() == d.exclude_from_upload && o.description_of() == d.description
                && o.description_raw_of() == d.description_raw@,
            o matches ObjectiveDescriptor::BeatWDFBoss(d) ==> o.is_static_of() == d.is_static
                && o.exclude_from_upload_of() == d.exclude_from_upload && o.description_of() == d.description
                && o.description_raw_of() == d.description_raw@,
            o matches ObjectiveDescriptor::ChangeCustoItemXTimes(d) ==> o.is_static_of() == d.is_static
                && o.exclude_from_upload_of() == d.exclude_from_upload && o.description_of() == d.description
                && o.description_raw_of() == d.description_raw@,
            o matches ObjectiveDescriptor::CompleteXQuests(d) ==> o.is_static_of() == d.is_static
                && o.exclude_from_upload_of() == d.exclude_from_upload && o.description_of() == d.description
                && o.description_raw_of() == d.description_raw@,
            o matches ObjectiveDescriptor::DanceXSeconds(d) ==> o.is_static_of() == d.is_static
                && o.exclude_from_upload_of() == d.exclude_from_upload && o.description_of() == d.description
                && o.description_raw_of() == d.description_raw@,
            o matches ObjectiveDescriptor::FinishXPlaylist(d) ==> o.is_static_of() == d.is_static
                && o.exclude_from_upload_of() == d.exclude_from_upload && o.description_of() == d.description
                && o.description_raw_of() == d.description_raw@,
            o matches ObjectiveDescriptor::GatherXStars(d) ==> o.is_static_of() == d.is_static
                && o.exclude_from_upload_of() == d.exclude_from_upload && o.description_of() == d.description
                && o.description_raw_of() == d.description_raw@,
            o matches ObjectiveDescriptor::LinkedToUplay(d) ==> o.is_static_of() == d.is_static
                && o.exclude_from_upload_of() == d.exclude_from_upload && o.description_of() == d.description
                && o.description_raw_of() == d.description_raw@,
            o matches ObjectiveDescriptor::OpenAnthologyMode(d) ==> o.is_static_of() == d.is_static
                && o.exclude_from_upload_of() == d.exclude_from_upload && o.description_of() == d.description
                && o.description_raw_of() == d.description_raw@,
            o matches ObjectiveDescriptor::OpenPostcardsGallery(d) ==> o.is_static_of() == d.is_static
                && o.exclude_from_upload_of() == d.exclude_from_upload && o.description_of() == d.description
                && o.description_raw_of() == d.description_raw@,
            o matches ObjectiveDescriptor::OpenStickerAlbum(d) ==> o.is_static_of() == d.is_static
                && o.exclude_from_upload_of() == d.exclude_from_upload && o.description_of() == d.description
                && o.description_raw_of() == d.description_raw@,
            o matches ObjectiveDescriptor::OpenVideoGallery(d) ==> o.is_static_of() == d.is_static
                && o.exclude_from_upload_of() == d.exclude_from_upload && o.description_of() == d.description
                && o.description_raw_of() == d.description_raw@,
            o matches ObjectiveDescriptor::PlayDailyQuestsForXDays(d) ==> o.is_static_of() == d.is_static
                && o.exclude_from_upload_of() == d.exclude_from_upload && o.description_of() == d.description
                && o.description_raw_of() == d.description_raw@,
            o matches ObjectiveDescriptor::PlayGachaXTimes(d) ==> o.is_static_of() == d.is_static
                && o.exclude_from_upload_of() == d.exclude_from_upload && o.description_of() == d.description
                && o.description_raw_of() == d.description_raw@,
            o matches ObjectiveDescriptor::PlayPreviousJD(d) ==> o.is_static_of() == d.is_static
                && o.exclude_from_upload_of() == d.exclude_from_upload && o.description_of() == d.description
                && o.description_raw_of() == d.description_raw@,
            o matches ObjectiveDescriptor::PlayWDFTournament(d) ==> o.is_static_of() == d.is_static
                && o.exclude_from_upload_of() == d.exclude_from_upload && o.description_of() == d.description
                && o.description_raw_of() == d.description_raw@,
            o matches ObjectiveDescriptor::PlayXMaps(d) ==> o.is_static_of() == d.is_static
                && o.exclude_from_upload_of() == d.exclude_from_upload && o.description_of() == d.description
                && o.description_raw_of() == d.description_raw@,
            o matches ObjectiveDescriptor::PlayXWDFTournamentRounds(d) ==> o.is_static_of() == d.is_static
                && o.exclude_from_upload_of() == d.exclude_from_upload && o.description_of() == d.description
                && o.description_raw_of() == d.description_raw@,
            o matches ObjectiveDescriptor::ReachRankX(d) ==> o.is_static_of() == d.is_static
                && o.exclude_from_upload_of() == d.exclude_from_upload && o.description_of() == d.description
                && o.description_raw_of() == d.description_raw@,
            o matches ObjectiveDescriptor::RenewJDUSub(d) ==> o.is_static_of() == d.is_static
                && o.exclude_from_upload_of() == d.exclude_from_upload && o.description_of() == d.description
                && o.description_raw_of() == d.description_raw@,
            o matches ObjectiveDescriptor::SwitchSweatMode(d) ==> o.is_static_of() == d.is_static
                && o.exclude_from_upload_of() == d.exclude_from_upload && o.description_of() == d.description
                && o.description_raw_of() == d.description_raw@,
            o matches ObjectiveDescriptor::UnlockUplayRewardAliasPack1(d) ==> o.is_static_of() == d.is_static
                && o.exclude_from_upload_of() == d.exclude_from_upload && o.description_of() == d.description
                && o.description_raw_of() == d.description_raw@,
            o matches ObjectiveDescriptor::UnlockUplayRewardAliasPack2(d) ==> o.is_static_of() == d.is_static
                && o.exclude_from_upload_of() == d.exclude_from_upload && o.description_of() == d.description
                && o.description_raw_of() == d.description_raw@,
            o matches ObjectiveDescriptor::UnlockXPortraitBorders(d) ==> o.is_static_of() == d.is_static
                && o.exclude_from_upload_of() == d.exclude_from_upload && o.description_of() == d.description
                && o.description_raw_of() == d.description_raw@,
            o matches ObjectiveDescriptor::UnlockXStickers(d) ==> o.is_static_of() == d.is_static
                && o.exclude_from_upload_of() == d.exclude_from_upload && o.description_of() == d.description
                && o.description_raw_of() == d.description_raw@,
            o matches ObjectiveDescriptor::WinWDFTeamBattle(d) ==> o.is_static_of() == d.is_static
                && o.exclude_from_upload_of() == d.exclude_from_upload && o.description_of() == d.description
                && o.description_raw_of() == d.description_raw@,
    {
    }

    /// The locale id of the description of the objective.
    pub fn description(&self) -> (r: LocaleId)
        ensures
            r == self.description_of(),
    {
        match self {
            Self::AccumulateXCal(data) => data.description,
            Self::AccumulateXMoves(data) => data.description,
            Self::ActivateCoopMode(data) => data.description,
            Self::AddXSongsToAPlaylist(data) => data.description,
            Self::BeatWDFBoss(data) => data.description,
            Self::ChangeCustoItemXTimes(data) => data.description,
            Self::CompleteXQuests(data) => data.description,
            Self::DanceXSeconds(data) => data.description,
            Self::FinishXPlaylist(data) => data.description,
            Self::GatherXStars(data) => data.description,
            Self::LinkedToUplay(data) => data.description,
            Self::OpenAnthologyMode(data) => data.description,
            Self::OpenPostcardsGallery(data) => data.description,
            Self::OpenStickerAlbum(data) => data.description,
            Self::OpenVideoGallery(data) => data.description,
            Self::PlayDailyQuestsForXDays(data) => data.description,
            Self::PlayGachaXTimes(data) => data.description,
            Self::PlayPreviousJD(data) => data.description,
            Self::PlayWDFTournament(data) => data.description,
            Self::PlayXMaps(data) => data.description,
            Self::PlayXWDFTournamentRounds(data) => data.description,
            Self::ReachRankX(data) => data.description,
            Self::RenewJDUSub(data) => data.description,
            Self::SwitchSweatMode(data) => data.description,
            Self::UnlockUplayRewardAliasPack1(data) => data.description,
            Self::UnlockUplayRewardAliasPack2(data) => data.description,
            Self::UnlockXPortraitBorders(data) => data.description,
            Self::UnlockXStickers(data) => data.description,
            Self::WinWDFTeamBattle(data) => data.description,
        }
    }

    /// Whether the objective is static.
    pub fn is_static(&self) -> (r: bool)
        ensures
            r == self.is_static_of(),
    {
        match self {
            Self::AccumulateXCal(data) => data.is_static,
            Self::AccumulateXMoves(data) => data.is_static,
            Self::ActivateCoopMode(data) => data.is_static,
            Self::AddXSongsToAPlaylist(data) => data.is_static,
            Self::BeatWDFBoss(data) => data.is_static,
            Self::ChangeCustoItemXTimes(data) => data.is_static,
            Self::CompleteXQuests(data) => data.is_static,
            Self::DanceXSeconds(data) => data.is_static,
            Self::FinishXPlaylist(data) => data.is_static,
            Self::GatherXStars(data) => data.is_static,
            Self::LinkedToUplay(data) => data.is_static,
            Self::OpenAnthologyMode(data) => data.is_static,
            Self::OpenPostcardsGallery(data) => data.is_static,
            Self::OpenStickerAlbum(data) => data.is_static,
            Self::OpenVideoGallery(data) => data.is_static,
            Self::PlayDailyQuestsForXDays(data) => data.is_static,
            Self::PlayGachaXTimes(data) => data.is_static,
            Self::PlayPreviousJD(data) => data.is_static,
            Self::PlayWDFTournament(data) => data.is_static,
            Self::PlayXMaps(data) => data.is_static,
            Self::PlayXWDFTournamentRounds(data) => data.is_static,
            Self::ReachRankX(data) => data.is_static,
            Self::RenewJDUSub(data) => data.is_static,
            Self::SwitchSweatMode(data) => data.is_static,
            Self::UnlockUplayRewardAliasPack1(data) => data.is_static,
            Self::UnlockUplayRewardAliasPack2(data) => data.is_static,
            Self::UnlockXPortraitBorders(data) => data.is_static,
            Self::UnlockXStickers(data) => data.is_static,
            Self::WinWDFTeamBattle(data) => data.is_static,
        }
    }

    /// Whether the objective is left out of uploads.
    pub fn exclude_from_upload(&self) -> (r: bool)
        ensures
            r == self.exclude_from_upload_of(),
    {
        match self {
            Self::AccumulateXCal(data) => data.exclude_from_upload,
            Self::AccumulateXMoves(data) => data.exclude_from_upload,
            Self::ActivateCoopMode(data) => data.exclude_from_upload,
            Self::AddXSongsToAPlaylist(data) => data.exclude_from_upload,
            Self::BeatWDFBoss(data) => data.exclude_from_upload,
            Self::ChangeCustoItemXTimes(data) => data.exclude_from_upload,
            Self::CompleteXQuests(data) => data.exclude_from_upload,
            Self::DanceXSeconds(data) => data.exclude_from_upload,
            Self::FinishXPlaylist(data) => data.exclude_from_upload,
            Self::GatherXStars(data) => data.exclude_from_upload,
            Self::LinkedToUplay(data) => data.exclude_from_upload,
            Self::OpenAnthologyMode(data) => data.exclude_from_upload,
            Self::OpenPostcardsGallery(data) => data.exclude_from_upload,
            Self::OpenStickerAlbum(data) => data.exclude_from_upload,
            Self::OpenVideoGallery(data) => data.exclude_from_upload,
            Self::PlayDailyQuestsForXDays(data) => data.exclude_from_upload,
            Self::PlayGachaXTimes(data) => data.exclude_from_upload,
            Self::PlayPreviousJD(data) => data.exclude_from_upload,
            Self::PlayWDFTournament(data) => data.exclude_from_upload,
            Self::PlayXMaps(data) => data.exclude_from_upload,
            Self::PlayXWDFTournamentRounds(data) => data.exclude_from_upload,
            Self::ReachRankX(data) => data.exclude_from_upload,
            Self::RenewJDUSub(data) => data.exclude_from_upload,
            Self::SwitchSweatMode(data) => data.exclude_from_upload,
            Self::UnlockUplayRewardAliasPack1(data) => data.exclude_from_upload,
            Self::UnlockUplayRewardAliasPack2(data) => data.exclude_from_upload,
            Self::UnlockXPortraitBorders(data) => data.exclude_from_upload,
            Self::UnlockXStickers(data) => data.exclude_from_upload,
            Self::WinWDFTeamBattle(data) => data.exclude_from_upload,
        }
    }

    /// A copy of the raw description of the objective.
    pub fn description_raw(&self) -> (r: Vec<u8>)
        ensures
            r@ == self.description_raw_of(),
    {
        let raw: &Vec<u8> = match self {
            Self::AccumulateXCal(data) => &data.description_raw,
            Self::AccumulateXMoves(data) => &data.description_raw,
            Self::ActivateCoopMode(data) => &data.description_raw,
            Self::AddXSongsToAPlaylist(data) => &data.description_raw,
            Self::BeatWDFBoss(data) => &data.description_raw,
            Self::ChangeCustoItemXTimes(data) => &data.description_raw,
            Self::CompleteXQuests(data) => &data.description_raw,
            Self::DanceXSeconds(data) => &data.description_raw,
            Self::FinishXPlaylist(data) => &data.description_raw,
            Self::GatherXStars(data) => &data.description_raw,
            Self::LinkedToUplay(data) => &data.description_raw,
            Self::OpenAnthologyMode(data) => &data.description_raw,
            Self::OpenPostcardsGallery(data) => &data.description_raw,
            Self::OpenStickerAlbum(data) => &data.description_raw,
            Self::OpenVideoGallery(data) => &data.description_raw,
            Self::PlayDailyQuestsForXDays(data) => &data.description_raw,
            Self::PlayGachaXTimes(data) => &data.description_raw,
            Self::PlayPreviousJD(data) => &data.description_raw,
            Self::PlayWDFTournament(data) => &data.description_raw,
            Self::PlayXMaps(data) => &data.description_raw,
            Self::PlayXWDFTournamentRounds(data) => &data.description_raw,
            Self::ReachRankX(data) => &data.description_raw,
            Self::RenewJDUSub(data) => &data.description_raw,
            Self::SwitchSweatMode(data) => &data.description_raw,
            Self::UnlockUplayRewardAliasPack1(data) => &data.description_raw,
            Self::UnlockUplayRewardAliasPack2(data) => &data.description_raw,
            Self::UnlockXPortraitBorders(data) => &data.description_raw,
            Self::UnlockXStickers(data) => &data.description_raw,
            Self::WinWDFTeamBattle(data) => &data.description_raw,
        };
        let mut v: Vec<u8> = Vec::new();
        push_bytes(&mut v, raw.as_slice());
        assert(v@ =~= raw@);
        v
    }
}

impl ObjectiveDescriptorComponent {
    /// Whether the requirement only counts distinct values, whatever its kind.
    pub open spec fn only_diff_values_of(&self) -> bool {
        match self {
            Self::CustoItemTypeRequirement(data) => data.only_diff_values,
            Self::GachaItemTypeRequirement(data) => data.only_diff_values,
            Self::MapCoachCountRequirement(data) => data.only_diff_values,
            Self::MapLaunchLocationRequirement(data) => data.only_diff_values,
            Self::MapMovesRequirement(data) => data.only_diff_values,
            Self::MapNameRequirement(data) => data.only_diff_values,
            Self::MapPlaymodeRequirement(data) => data.only_diff_values,
            Self::MapScoreRequirement(data) => data.only_diff_values,
            Self::MapTagsRequirement(data) => data.only_diff_values,
            Self::OnlyOnline(data) => data.only_diff_values,
            Self::OnlyOnUnlimitedSongs(data) => data.only_diff_values,
            Self::PlaylistIdRequirement(data) => data.only_diff_values,
            Self::ScoringModeRequirement(data) => data.only_diff_values,
            Self::SearchLabelsRequirement(data) => data.only_diff_values,
            Self::StickerIdRequirement(data) => data.only_diff_values,
        }
    }

    /// Whether the requirement only counts distinct values.
    pub fn only_diff_values(&self) -> (r: bool)
        ensures
            r == self.only_diff_values_of(),
    {
        match self {
            Self::CustoItemTypeRequirement(data) => data.only_diff_values,
            Self::GachaItemTypeRequirement(data) => data.only_diff_values,
            Self::MapCoachCountRequirement(data) => data.only_diff_values,
            Self::MapLaunchLocationRequirement(data) => data.only_diff_values,
            Self::MapMovesRequirement(data) => data.only_diff_values,
            Self::MapNameRequirement(data) => data.only_diff_values,
            Self::MapPlaymodeRequirement(data) => data.only_diff_values,
            Self::MapScoreRequirement(data) => data.only_diff_values,
            Self::MapTagsRequirement(data) => data.only_diff_values,
            Self::OnlyOnline(data) => data.only_diff_values,
            Self::OnlyOnUnlimitedSongs(data) => data.only_diff_values,
            Self::PlaylistIdRequirement(data) => data.only_diff_values,
            Self::ScoringModeRequirement(data) => data.only_diff_values,
            Self::SearchLabelsRequirement(data) => data.only_diff_values,
            Self::StickerIdRequirement(data) => data.only_diff_values,
        }
    }
}

} // verus!
