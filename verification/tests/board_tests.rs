use chan_tui::AttachmentData;
use chan_tui::Board;
use chan_tui::CatalogPage;
use chan_tui::Divider;
use chan_tui::Orientation;
use chan_tui::Post;
use chan_tui::board_list_entries;
use chan_tui::get_threads_for_board;
use chan_tui::matches_key;
use chan_tui::opt_int_to_bool;
use chan_tui::select_board_index;

fn board(code: &str, title: &str, sfw: bool) -> Board {
    Board {
        board: code.to_string(),
        title: title.to_string(),
        sfw,
        threads_per_page: 15,
        pages: 10,
        max_filesize: 4194304,
        max_webm_filesize: 3145728,
        max_comment_chars: 2000,
        bump_limit: 310,
        image_limit: 150,
        meta_description: String::new(),
        spoilers: false,
        custom_spoilers: None,
        is_archived: false,
        troll_flags: false,
        country_flags: false,
        user_ids: false,
        oekaki: false,
        sjis_tags: false,
        code_tags: false,
        math_tags: false,
        text_only: false,
        forced_anon: false,
        webm_audio: false,
        require_subject: false,
        min_image_width: None,
        min_image_height: None,
    }
}

fn post(no: isize, attachment: Option<AttachmentData>) -> Post {
    Post {
        op: None,
        no,
        resto: 0,
        now: String::new(),
        time: 0,
        name: None,
        trip: None,
        id: None,
        capcode: None,
        country: None,
        country_name: None,
        com: None,
        attachment,
        since4pass: None,
        m_img: false,
    }
}

fn attachment(filedeleted: bool) -> AttachmentData {
    AttachmentData {
        tim: 1600000000000,
        filename: "pic".to_string(),
        ext: ".jpg".to_string(),
        fsize: 1000,
        md5: String::new(),
        w: 100,
        h: 100,
        tn_w: 50,
        tn_h: 50,
        filedeleted,
        spoiler: false,
        custom_spoiler: None,
    }
}

#[test]
fn board_entries_filter_and_label() {
    let boards = vec![
        board("g", "Technology", true),
        board("b", "Random", false),
        board("po", "Papercraft & Origami", true),
    ];
    let sfw_only = board_list_entries(&boards, false);
    assert_eq!(sfw_only.len(), 2);
    assert_eq!(sfw_only[0].0, "/g/: Technology");
    assert_eq!(sfw_only[0].1, "g");
    assert_eq!(sfw_only[1].0, "/po/: Papercraft & Origami");
    assert_eq!(sfw_only[1].1, "po");

    let all = board_list_entries(&boards, true);
    assert_eq!(all.len(), 3);
    assert_eq!(all[1].0, "/b/: Random");
    assert_eq!(all[1].1, "b");
}

#[test]
fn key_matching_ignores_case_and_slashes() {
    assert!(matches_key("/G/: Technology", 'g'));
    assert!(matches_key("/a/: Anime", 'a'));
    assert!(!matches_key("/a/: Anime", 'b'));
    assert!(matches_key("G", 'g'));
    assert!(!matches_key("", 'g'));
    assert!(!matches_key("///", 'g'));
}

#[test]
fn board_selection_cycles_from_focus() {
    let labels: Vec<String> = vec![
        "/a/: Anime".to_string(),
        "/b/: Random".to_string(),
        "/c/: Cosplay".to_string(),
    ];
    // Matches after the focus report the walk's position, not the
    // entry's own index.
    assert_eq!(select_board_index(&labels, 0, 'c'), 1);
    assert_eq!(select_board_index(&labels, 1, 'c'), 0);
    // Cycling past the end reaches earlier entries.
    assert_eq!(select_board_index(&labels, 2, 'a'), 0);
    assert_eq!(select_board_index(&labels, 1, 'a'), 1);
    // No match keeps the focus.
    assert_eq!(select_board_index(&labels, 1, 'z'), 1);
    // From the last entry the walk is the whole list from the top.
    assert_eq!(select_board_index(&labels, 2, 'b'), 1);
}

#[test]
fn first_catalog_page_supplies_threads() {
    let pages = vec![
        CatalogPage { page: 1, threads: vec![post(10, None), post(11, None)] },
        CatalogPage { page: 2, threads: vec![post(20, None)] },
    ];
    let threads = get_threads_for_board(pages);
    assert_eq!(threads.len(), 2);
    assert_eq!(threads[0].no, 10);
    assert_eq!(threads[1].no, 11);
}

#[test]
fn optional_int_flags() {
    assert!(opt_int_to_bool(Some(1)));
    assert!(!opt_int_to_bool(Some(0)));
    assert!(!opt_int_to_bool(Some(2)));
    assert!(!opt_int_to_bool(Some(-1)));
    assert!(!opt_int_to_bool(None));
}

#[test]
fn attachment_visibility() {
    assert!(!post(1, None).has_visible_attachment());
    assert!(post(1, Some(attachment(false))).has_visible_attachment());
    assert!(!post(1, Some(attachment(true))).has_visible_attachment());
}

#[test]
fn divider_glyphs() {
    assert_eq!(Divider::horizontal().glyph(), '-');
    assert_eq!(Divider::vertical().glyph(), '|');
    assert_eq!(Divider::new(Orientation::Vertical).glyph(), '|');
    assert_eq!(Divider::new(Orientation::Horizontal).glyph(), '-');
}
