//! Records of the schedule service.

use vstd::prelude::*;

verus! {

/// A title as the title lookup returns it.
#[derive(Debug)]
pub struct SyoboiTitle {
    /// Title key.
    pub tid: u32,
    /// Change token of the record (a timestamp in text).
    pub last_update: String,
    /// Title name.
    pub title: String,
    /// Short title.
    pub short_title: Option<String>,
    /// Phonetic reading of the title.
    pub title_yomi: Option<String>,
    /// English title.
    pub title_en: Option<String>,
    /// Free-form comment (staff, cast).
    pub comment: Option<String>,
    /// Category.
    pub cat: Option<u32>,
    /// Title flag.
    pub title_flag: Option<u32>,
    /// Year of the first broadcast.
    pub first_year: Option<u32>,
    /// Month of the first broadcast.
    pub first_month: Option<u32>,
    /// Year of the last broadcast.
    pub first_end_year: Option<u32>,
    /// Month of the last broadcast.
    pub first_end_month: Option<u32>,
    /// Channel of the first broadcast.
    pub first_ch: Option<String>,
    /// Keywords.
    pub keywords: Option<String>,
    /// User point score.
    pub user_point: Option<i32>,
    /// Rank by user points.
    pub user_point_rank: Option<u32>,
    /// Raw episode subtitles, one `*NN*text` line per episode.
    pub sub_titles: Option<String>,
}

/// A scheduled broadcast as the program lookup returns it.
#[derive(Debug)]
pub struct SyoboiProgram {
    /// Program key, unique per broadcast.
    pub pid: u32,
    /// Key of the title that is broadcast.
    pub tid: u32,
    /// Start of the broadcast, `YYYY-MM-DD HH:MM:SS`.
    pub st_time: String,
    /// Start offset in seconds.
    pub st_offset: Option<i32>,
    /// End of the broadcast.
    pub ed_time: String,
    /// Episode number.
    pub count: Option<u32>,
    /// Subtitle of the program record.
    pub sub_title: Option<String>,
    /// Program comment.
    pub prog_comment: Option<String>,
    /// Flag bits.
    pub flag: Option<u32>,
    /// Deleted marker of the service.
    pub deleted: Option<u32>,
    /// Warning marker.
    pub warn: Option<u32>,
    /// Channel key.
    pub ch_id: u32,
    /// Revision number.
    pub revision: Option<u32>,
    /// Change token of the record.
    pub last_update: Option<String>,
    /// Subtitle joined from the title's episode list.
    pub st_sub_title: Option<String>,
}

/// A channel as the channel lookup returns it.
#[derive(Debug)]
pub struct SyoboiChannel {
    /// Channel key.
    pub ch_id: u32,
    /// Key of the group the channel belongs to.
    pub ch_gid: Option<u32>,
    /// Channel name.
    pub ch_name: String,
    /// Channel comment.
    pub ch_comment: Option<String>,
    /// Channel URL.
    pub ch_url: Option<String>,
    /// Change token of the record.
    pub last_update: Option<String>,
    /// Channel name in programme guides.
    pub ch_iepg_name: Option<String>,
    /// Programme guide URL.
    pub ch_epg_url: Option<String>,
    /// Channel number.
    pub ch_number: Option<u32>,
}

/// A channel group as the group lookup returns it.
#[derive(Debug)]
pub struct SyoboiChannelGroup {
    /// Group key.
    pub ch_gid: u32,
    /// Group name.
    pub ch_group_name: String,
    /// Free-form comment.
    pub ch_group_comment: Option<String>,
    /// Position of the group in listings.
    pub ch_group_order: u32,
}

impl Clone for SyoboiTitle {
    fn clone(&self) -> (copy: Self)
        ensures
            copy == *self,
    {
        SyoboiTitle {
            tid: self.tid,
            last_update: self.last_update.clone(),
            title: self.title.clone(),
            short_title: self.short_title.clone(),
            title_yomi: self.title_yomi.clone(),
            title_en: self.title_en.clone(),
            comment: self.comment.clone(),
            cat: self.cat,
            title_flag: self.title_flag,
            first_year: self.first_year,
            first_month: self.first_month,
            first_end_year: self.first_end_year,
            first_end_month: self.first_end_month,
            first_ch: self.first_ch.clone(),
            keywords: self.keywords.clone(),
            user_point: self.user_point,
            user_point_rank: self.user_point_rank,
            sub_titles: self.sub_titles.clone(),
        }
    }
}

impl Clone for SyoboiProgram {
    fn clone(&self) -> (copy: Self)
        ensures
            copy == *self,
    {
        SyoboiProgram {
            pid: self.pid,
            tid: self.tid,
            st_time: self.st_time.clone(),
            st_offset: self.st_offset,
            ed_time: self.ed_time.clone(),
            count: self.count,
            sub_title: self.sub_title.clone(),
            prog_comment: self.prog_comment.clone(),
            flag: self.flag,
            deleted: self.deleted,
            warn: self.warn,
            ch_id: self.ch_id,
            revision: self.revision,
            last_update: self.last_update.clone(),
            st_sub_title: self.st_sub_title.clone(),
        }
    }
}

impl Clone for SyoboiChannel {
    fn clone(&self) -> (copy: Self)
        ensures
            copy == *self,
    {
        SyoboiChannel {
            ch_id: self.ch_id,
            ch_gid: self.ch_gid,
            ch_name: self.ch_name.clone(),
            ch_comment: self.ch_comment.clone(),
            ch_url: self.ch_url.clone(),
            last_update: self.last_update.clone(),
            ch_iepg_name: self.ch_iepg_name.clone(),
            ch_epg_url: self.ch_epg_url.clone(),
            ch_number: self.ch_number,
        }
    }
}

impl Clone for SyoboiChannelGroup {
    fn clone(&self) -> (copy: Self)
        ensures
            copy == *self,
    {
        SyoboiChannelGroup {
            ch_gid: self.ch_gid,
            ch_group_name: self.ch_group_name.clone(),
            ch_group_comment: self.ch_group_comment.clone(),
            ch_group_order: self.ch_group_order,
        }
    }
}

} // verus!
