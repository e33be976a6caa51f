//! The record that describes a resolved media item.

use crate::json::{JsonMember, MemberView};
use vstd::prelude::*;
use vstd::string::StringExecFns;

verus! {

/// A record, as contracts see it.
pub ghost struct MetadataView {
    pub upload_date: Seq<char>,
    pub title: Seq<char>,
    pub fulltitle: Seq<char>,
    pub view_count: u32,
    pub description: Seq<char>,
    pub uploader: Seq<char>,
    pub thumbnail: Seq<char>,
    pub webpage_url: Seq<char>,
    pub uploader_url: Seq<char>,
    pub duration: u32,
}

/// What the extraction tool reports of a media item.
#[derive(Debug)]
pub struct YtdlMetadata {
    /// The day of the upload, as the tool writes it: `YYYYMMDD`.
    pub upload_date: String,
    /// The title.
    pub title: String,
    /// The full title.
    pub fulltitle: String,
    /// How often the item was viewed.
    pub view_count: u32,
    /// The description.
    pub description: String,
    /// The uploader's name.
    pub uploader: String,
    /// Where the thumbnail is.
    pub thumbnail: String,
    /// Where the item's page is.
    pub webpage_url: String,
    /// Where the uploader's page is.
    pub uploader_url: String,
    /// The duration in seconds.
    pub duration: u32,
}

impl DeepView for YtdlMetadata {
    type V = MetadataView;

    open spec fn deep_view(&self) -> MetadataView {
        MetadataView {
            upload_date: self.upload_date@,
            title: self.title@,
            fulltitle: self.fulltitle@,
            view_count: self.view_count,
            description: self.description@,
            uploader: self.uploader@,
            thumbnail: self.thumbnail@,
            webpage_url: self.webpage_url@,
            uploader_url: self.uploader_url@,
            duration: self.duration,
        }
    }
}

impl View for YtdlMetadata {
    type V = MetadataView;

    open spec fn view(&self) -> MetadataView {
        self.deep_view()
    }
}

/// The first of `members` that is called `name`.
pub open spec fn member_named(members: Seq<MemberView>, name: Seq<char>) -> Option<MemberView>
    decreases members.len(),
{
    if members.len() == 0 {
        None
    } else if members.first().name == name {
        Some(members.first())
    } else {
        member_named(members.drop_first(), name)
    }
}

/// The string that the member `name` holds; `None` where there is no such
/// member or it holds something else.
pub open spec fn text_field(members: Seq<MemberView>, name: Seq<char>) -> Option<Seq<char>> {
    match member_named(members, name) {
        Some(member) => member.text,
        None => None,
    }
}

/// The number that the member `name` holds; `None` where there is no such
/// member or it holds anything but an integer from 0 to 2^32 - 1.
pub open spec fn count_field(members: Seq<MemberView>, name: Seq<char>) -> Option<u32> {
    match member_named(members, name) {
        Some(member) => match member.count {
            Some(count) if count <= u32::MAX => Some(count as u32),
            _ => None,
        },
        None => None,
    }
}

/// Whether `members` hold every field of a record, each with a value of its
/// type.
pub open spec fn is_record(members: Seq<MemberView>) -> bool {
    &&& text_field(members, "upload_date"@) is Some
    &&& text_field(members, "title"@) is Some
    &&& text_field(members, "fulltitle"@) is Some
    &&& count_field(members, "view_count"@) is Some
    &&& text_field(members, "description"@) is Some
    &&& text_field(members, "uploader"@) is Some
    &&& text_field(members, "thumbnail"@) is Some
    &&& text_field(members, "webpage_url"@) is Some
    &&& text_field(members, "uploader_url"@) is Some
    &&& count_field(members, "duration"@) is Some
}

/// The record that `members` describe: every field is required, and a
/// member of another name is passed over.
pub open spec fn record_of(members: Seq<MemberView>) -> Option<MetadataView> {
    if is_record(members) {
        Some(
            MetadataView {
                upload_date: text_field(members, "upload_date"@)->0,
                title: text_field(members, "title"@)->0,
                fulltitle: text_field(members, "fulltitle"@)->0,
                view_count: count_field(members, "view_count"@)->0,
                description: text_field(members, "description"@)->0,
                uploader: text_field(members, "uploader"@)->0,
                thumbnail: text_field(members, "thumbnail"@)->0,
                webpage_url: text_field(members, "webpage_url"@)->0,
                uploader_url: text_field(members, "uploader_url"@)->0,
                duration: count_field(members, "duration"@)->0,
            },
        )
    } else {
        None
    }
}

fn find<'a>(members: &'a Vec<JsonMember>, name: &str) -> (found: Option<&'a JsonMember>)
    ensures
        found.deep_view() == member_named(members.deep_view(), name@),
{
    let key = String::from_str(name);
    let ghost all = members.deep_view();
    let mut at: usize = 0;
    assert(all.skip(0) =~= all);
    while at < members.len()
        invariant
            at <= members.len(),
            all == members.deep_view(),
            key@ == name@,
            member_named(all, name@) == member_named(all.skip(at as int), name@),
        decreases members.len() - at,
    {
        let ghost rest = all.skip(at as int);
        assert(rest.first() == members[at as int].deep_view());
        assert(rest.drop_first() =~= all.skip(at + 1));
        if members[at].name == key {
            return Some(&members[at]);
        }
        at += 1;
    }
    None
}

fn text_of(members: &Vec<JsonMember>, name: &str) -> (text: Option<String>)
    ensures
        text.deep_view() == text_field(members.deep_view(), name@),
{
    match find(members, name) {
        Some(member) => member.text.clone(),
        None => None,
    }
}

fn count_of(members: &Vec<JsonMember>, name: &str) -> (count: Option<u32>)
    ensures
        count == count_field(members.deep_view(), name@),
{
    match find(members, name) {
        Some(member) => match member.count {
            Some(count) => if count <= 0xffff_ffff {
                Some(count as u32)
            } else {
                None
            },
            None => None,
        },
        None => None,
    }
}

impl YtdlMetadata {
    /// Builds the record that the members of one JSON object describe;
    /// `None` where a field is missing or holds a value of another type.
    pub fn from_members(members: &Vec<JsonMember>) -> (record: Option<YtdlMetadata>)
        ensures
            record.deep_view() == record_of(members.deep_view()),
    {
        let upload_date = text_of(members, "upload_date")?;
        let title = text_of(members, "title")?;
        let fulltitle = text_of(members, "fulltitle")?;
        let view_count = count_of(members, "view_count")?;
        let description = text_of(members, "description")?;
        let uploader = text_of(members, "uploader")?;
        let thumbnail = text_of(members, "thumbnail")?;
        let webpage_url = text_of(members, "webpage_url")?;
        let uploader_url = text_of(members, "uploader_url")?;
        let duration = count_of(members, "duration")?;
        Some(
            YtdlMetadata {
                upload_date,
                title,
                fulltitle,
                view_count,
                description,
                uploader,
                thumbnail,
                webpage_url,
                uploader_url,
                duration,
            },
        )
    }
}

} // verus!
