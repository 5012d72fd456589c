use vstd::prelude::*;

verus! {

/// A whole thread: its ordered posts, the opening post first.
#[derive(Debug, Clone)]
pub struct Thread {
    pub posts: Vec<Post>,
}

/// One post of a thread. `op` is populated exactly on the opening
/// post, `attachment` on posts that carry a file.
#[derive(Debug, Clone)]
pub struct Post {
    /// Data specific to the opening post, where this post is one.
    pub op: Option<OpData>,
    /// Post ID.
    pub no: isize,
    /// ID of the thread, or 0 where this post opens it.
    pub resto: isize,
    pub now: String,
    /// Time the post was created.
    pub time: isize,
    /// User name.
    pub name: Option<String>,
    /// User tripcode.
    pub trip: Option<String>,
    /// User ID.
    pub id: Option<String>,
    /// Post capcode.
    pub capcode: Option<String>,
    /// Country code.
    pub country: Option<String>,
    /// Country name.
    pub country_name: Option<String>,
    /// Comment.
    pub com: Option<String>,
    /// Data for the post's attachment, where present.
    pub attachment: Option<AttachmentData>,
    /// Year a pass was bought.
    pub since4pass: Option<isize>,
    /// Whether the post has a mobile-optimized image.
    pub m_img: bool,
}

impl Post {
    /// Whether a thread panel shows a thumbnail for this post: it
    /// carries an attachment whose file was not deleted.
    pub open spec fn has_visible_attachment_spec(self) -> bool {
        &&& self.attachment is Some
        &&& !self.attachment->Some_0.filedeleted
    }

    /// Whether this post's attachment is present and not deleted.
    pub fn has_visible_attachment(&self) -> (r: bool)
        ensures
            r == self.has_visible_attachment_spec(),
    {
        match &self.attachment {
            Some(attachment) => !attachment.filedeleted,
            None => false,
        }
    }
}

/// Data for one post's attachment.
#[derive(Debug, Clone)]
pub struct AttachmentData {
    /// Image upload timestamp.
    pub tim: isize,
    /// File name.
    pub filename: String,
    /// File extension.
    pub ext: String,
    /// File size.
    pub fsize: isize,
    /// MD5 of the file.
    pub md5: String,
    /// Image width.
    pub w: isize,
    /// Image height.
    pub h: isize,
    /// Thumbnail width.
    pub tn_w: isize,
    /// Thumbnail height.
    pub tn_h: isize,
    /// Whether the file has been deleted.
    pub filedeleted: bool,
    /// Whether the file is spoilered.
    pub spoiler: bool,
    /// Custom spoiler ID.
    pub custom_spoiler: Option<isize>,
}

/// Data specific to a thread's opening post.
#[derive(Debug, Clone)]
pub struct OpData {
    /// Whether the thread is pinned.
    pub sticky: bool,
    /// Whether the thread is closed to replies.
    pub closed: bool,
    /// Subject text.
    pub sub: Option<String>,
    /// Total number of replies.
    pub replies: isize,
    /// Total number of image replies.
    pub images: isize,
    /// Whether the thread reached the bump limit.
    pub bumplimit: bool,
    /// Whether the thread reached the image limit.
    pub imagelimit: bool,
    /// Category of an upload, where the board has one.
    pub tag: Option<String>,
    /// URL slug for the thread.
    pub semantic_url: String,
    /// Number of unique posters.
    pub unique_ips: Option<isize>,
    /// Whether the thread has been archived.
    pub archived: bool,
    /// Archived date.
    pub archived_on: Option<isize>,
}

/// One board of the image-board's directory.
#[derive(Debug, Clone)]
pub struct Board {
    pub board: String,
    pub title: String,
    /// Whether the board is work-safe.
    pub sfw: bool,
    pub threads_per_page: usize,
    pub pages: usize,
    pub max_filesize: usize,
    pub max_webm_filesize: usize,
    pub max_comment_chars: usize,
    pub bump_limit: usize,
    pub image_limit: usize,
    pub meta_description: String,
    pub spoilers: bool,
    pub custom_spoilers: Option<usize>,
    pub is_archived: bool,
    pub troll_flags: bool,
    pub country_flags: bool,
    pub user_ids: bool,
    pub oekaki: bool,
    pub sjis_tags: bool,
    pub code_tags: bool,
    pub math_tags: bool,
    pub text_only: bool,
    pub forced_anon: bool,
    pub webm_audio: bool,
    pub require_subject: bool,
    pub min_image_width: Option<usize>,
    pub min_image_height: Option<usize>,
}

/// The board directory: every board, and an optional table of extra
/// flags keyed by code.
#[derive(Debug)]
pub struct BoardsResponse {
    pub boards: Vec<Board>,
    pub troll_flags: Option<Vec<(String, String)>>,
}

/// One page of a board's catalog.
#[derive(Debug, Clone)]
pub struct CatalogPage {
    pub page: usize,
    pub threads: Vec<Post>,
}

/// Read an optional integer flag as a boolean: exactly the value 1
/// means true; absence or any other value means false.
pub fn opt_int_to_bool(v: Option<isize>) -> (r: bool)
    ensures
        r <==> v == Some(1isize),
{
    match v {
        Some(n) => n == 1,
        None => false,
    }
}

/// The threads of a board's catalog: the first catalog page's threads,
/// in order. The fetched catalog must hold at least one page.
pub fn get_threads_for_board(mut pages: Vec<CatalogPage>) -> (r: Vec<Post>)
    requires
        pages@.len() > 0,
    ensures
        r == pages@[0].threads,
{
    let first = pages.remove(0);
    first.threads
}

/// The label the board directory shows for one board:
/// `/{board}/: {title}`.
pub open spec fn board_label_spec(b: Board) -> Seq<char> {
    "/"@ + b.board@ + "/: "@ + b.title@
}

/// The `(label, board)` entries the directory lists for a work-safety
/// setting: one entry per board the setting allows, in directory
/// order.
pub open spec fn board_entries_spec(boards: Seq<Board>, show_nsfw: bool) -> Seq<
    (Seq<char>, Seq<char>),
>
    decreases boards.len(),
{
    if boards.len() == 0 {
        Seq::empty()
    } else {
        let rest = board_entries_spec(boards.drop_last(), show_nsfw);
        if show_nsfw || boards.last().sfw {
            rest.push((board_label_spec(boards.last()), boards.last().board@))
        } else {
            rest
        }
    }
}

/// Build the board list's entries: for each board that is work-safe or
/// that an NSFW-showing setting admits, its display label and its board
/// code, in directory order.
pub fn board_list_entries(boards: &Vec<Board>, show_nsfw: bool) -> (r: Vec<(String, String)>)
    ensures
        r@.map_values(|p: (String, String)| (p.0@, p.1@)) == board_entries_spec(
            boards@,
            show_nsfw,
        ),
{
    let mut out: Vec<(String, String)> = Vec::new();
    for i in 0..boards.len()
        invariant
            out@.map_values(|p: (String, String)| (p.0@, p.1@)) == board_entries_spec(
                boards@.take(i as int),
                show_nsfw,
            ),
    {
        proof {
            assert(boards@.take(i + 1).drop_last() =~= boards@.take(i as int));
        }
        if show_nsfw || boards[i].sfw {
            let mut label = String::new();
            label.append("/");
            label.append(boards[i].board.as_str());
            label.append("/: ");
            label.append(boards[i].title.as_str());
            let value = boards[i].board.clone();
            out.push((label, value));
        }
        proof {
            assert(out@.map_values(|p: (String, String)| (p.0@, p.1@)) =~= board_entries_spec(
                boards@.take(i + 1),
                show_nsfw,
            ));
        }
    }
    proof {
        assert(boards@.take(boards@.len() as int) =~= boards@);
    }
    out
}

} // verus!
