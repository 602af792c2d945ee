use leafish::accounts::saved_accounts;
use leafish::chat::{
    max_message_length, BlinkChange, ChatAction, ChatContext, ChatInput, ChatKey, NamedKey,
    MAX_MESSAGES, START_TICKS,
};
use leafish::key::Key;
use leafish::resources::{
    asset_path, hash_usable, is_global, load_assets_flag, object_file, load_vanilla_flag, pending_step, ObjectIndex,
    PackList, PendingStep, Progress,
};
use leafish::version::Version;

#[test]
fn asset_paths() {
    assert_eq!(asset_path("minecraft", "textures/a.png"), "assets/minecraft/textures/a.png");
    assert_eq!(asset_path("", ""), "assets//");
    assert!(is_global("global"));
    assert!(!is_global("minecraft"));
}

#[test]
fn packs_in_order_and_version() {
    let mut l: PackList<&str> = PackList::new();
    assert_eq!(l.version(), 0);
    l.add_pack("internal");
    l.insert_pack("vanilla");
    l.add_pack("extra");
    l.insert_pack("assets");
    assert_eq!(l.len(), 4);
    assert_eq!(*l.get(0), "internal");
    assert_eq!(*l.get(1), "assets");
    assert_eq!(*l.get(2), "vanilla");
    assert_eq!(*l.get(3), "extra");
    assert_eq!(l.version(), 4);
}

#[test]
fn object_files() {
    let mut ix = ObjectIndex::new();
    ix.insert("minecraft/sounds.json".to_string(), "abcdef".to_string());
    ix.insert("minecraft/lang/en_us.json".to_string(), "99ff".to_string());
    assert_eq!(
        ix.object_path("assets/minecraft/sounds.json").as_deref(),
        Some("./objects/ab/abcdef")
    );
    assert_eq!(ix.object_path("minecraft/sounds.json"), None);
    assert_eq!(ix.object_path("assets/minecraft/other.json"), None);
    ix.insert("minecraft/sounds.json".to_string(), "1234".to_string());
    assert_eq!(
        ix.object_path("assets/minecraft/sounds.json").as_deref(),
        Some("./objects/12/1234")
    );
    assert_eq!(
        ix.object_path("assets/minecraft/lang/en_us.json").as_deref(),
        Some("./objects/99/99ff")
    );
}

#[test]
fn task_progress() {
    let mut p = Progress::new();
    p.add_task("Downloading Asset", "a", 10);
    p.add_task("Downloading Asset", "b", 5);
    p.add_task_progress("Downloading Asset", "a", 4);
    assert_eq!(p.tasks[0].progress, 4);
    assert_eq!(p.tasks[1].progress, 0);
    p.add_task_progress("Downloading Asset", "b", 5);
    p.add_task_progress("Other", "a", 100);
    assert_eq!(p.tasks[0].progress, 4);
    p.retain_unfinished();
    assert_eq!(p.tasks.len(), 1);
    assert_eq!(p.tasks[0].task_file, "a");
    p.add_task_progress("Downloading Asset", "a", 6);
    p.retain_unfinished();
    assert!(p.tasks.is_empty());
    p.add_task("x", "y", 1);
    p.clear();
    assert!(p.tasks.is_empty());
}

#[test]
fn pending_download_counter() {
    assert_eq!(pending_step(0), None);
    assert_eq!(
        pending_step(1),
        Some(PendingStep { load_assets: false, load_vanilla: false, all_done: true })
    );
    assert_eq!(
        pending_step(3),
        Some(PendingStep { load_assets: false, load_vanilla: false, all_done: false })
    );
    assert_eq!(
        pending_step(load_assets_flag() + 1),
        Some(PendingStep { load_assets: true, load_vanilla: false, all_done: false })
    );
    assert_eq!(
        pending_step(load_vanilla_flag() | load_assets_flag() | 2),
        Some(PendingStep { load_assets: true, load_vanilla: true, all_done: false })
    );
    assert_eq!(load_vanilla_flag(), 1usize << (usize::BITS - 1));
    assert_eq!(load_assets_flag(), 1usize << (usize::BITS - 2));
}

#[test]
fn chat_log_keeps_the_newest_messages() {
    let mut c: ChatContext<String> = ChatContext::new();
    assert!(!c.is_dirty());
    for k in 0..(MAX_MESSAGES + 1) {
        c.push_msg(format!("m{}", k));
    }
    assert!(c.is_dirty());
    assert_eq!(c.message(0), "m1");
    assert_eq!(c.message(MAX_MESSAGES - 1), &format!("m{}", MAX_MESSAGES));
    c.clear_dirty();
    assert!(!c.is_dirty());
}

#[test]
fn chat_messages_fade() {
    let mut c: ChatContext<&str> = ChatContext::new();
    c.push_msg("a");
    c.push_msg("b");
    let v = c.tick_visible_messages();
    assert_eq!(v, vec![(START_TICKS - 1, 1), (START_TICKS - 1, 0)]);
    for _ in 0..(START_TICKS - 2) {
        c.tick_visible_messages();
    }
    assert_eq!(c.tick_visible_messages(), vec![]);
    c.push_msg("c");
    assert_eq!(c.tick_visible_messages(), vec![(START_TICKS - 1, 2)]);
}

fn typed(c: char) -> ChatKey {
    ChatKey { key: Key::Character(c.to_string()), named: NamedKey::Other, text: Some(c.to_string()) }
}

fn named(n: NamedKey) -> ChatKey {
    ChatKey { key: Key::Other, named: n, text: None }
}

#[test]
fn message_limits() {
    assert_eq!(max_message_length(Version::V1_8), 100);
    assert_eq!(max_message_length(Version::V1_10), 100);
    assert_eq!(max_message_length(Version::V1_11), 256);
    assert_eq!(max_message_length(Version::V1_16), 256);
}

#[test]
fn typing_a_message() {
    let mut i = ChatInput::new();
    assert!(matches!(i.on_key_press(&typed('h'), true, false, Version::V1_12, None), ChatAction::Nothing));
    i.on_key_press(&typed('i'), true, false, Version::V1_12, None);
    assert_eq!(i.text(), "hi");
    assert!(i.take_dirty_written());
    assert!(!i.take_dirty_written());
    i.on_key_press(&typed('\r'), true, false, Version::V1_12, None);
    assert_eq!(i.text(), "hi");
    i.on_key_press(&named(NamedKey::Backspace), true, false, Version::V1_12, None);
    assert_eq!(i.text(), "h");
    match i.on_key_press(&named(NamedKey::Enter), false, false, Version::V1_12, None) {
        ChatAction::Send(m) => assert_eq!(m, "h"),
        _ => panic!("expected the message to be sent"),
    }
    assert!(matches!(
        i.on_key_press(&named(NamedKey::Escape), false, false, Version::V1_12, None),
        ChatAction::Close
    ));
}

#[test]
fn empty_message_only_closes() {
    let mut i = ChatInput::new();
    i.on_key_press(&named(NamedKey::Backspace), true, false, Version::V1_12, None);
    assert_eq!(i.text(), "");
    assert!(!i.take_dirty_written());
    assert!(matches!(
        i.on_key_press(&named(NamedKey::Enter), false, false, Version::V1_12, None),
        ChatAction::Close
    ));
}

#[test]
fn message_length_is_limited() {
    let mut i = ChatInput::new();
    for _ in 0..120 {
        i.on_key_press(&typed('a'), true, false, Version::V1_8, None);
    }
    assert_eq!(i.text().len(), 100);
    let mut j = ChatInput::new();
    for _ in 0..300 {
        j.on_key_press(&typed('a'), true, false, Version::V1_12, None);
    }
    assert_eq!(j.text().len(), 256);
}

#[test]
fn pasting_into_a_message() {
    let mut i = ChatInput::new();
    i.on_key_press(&typed('V'), true, true, Version::V1_12, Some("xyz"));
    assert_eq!(i.text(), "xyz");
    i.on_key_press(&typed('v'), true, true, Version::V1_12, None);
    assert_eq!(i.text(), "xyz");
    let long = "b".repeat(300);
    i.on_key_press(&typed('v'), true, true, Version::V1_12, Some(&long));
    assert_eq!(i.text().len(), 256);
    let mut u = ChatInput::new();
    let wide = "é".repeat(60);
    u.on_key_press(&typed('v'), true, true, Version::V1_8, Some(&wide));
    assert_eq!(u.text().len(), 100);
    assert_eq!(u.text().chars().count(), 50);
}

#[test]
fn cursor_blinks() {
    let mut i = ChatInput::new();
    assert_eq!(i.blink(), BlinkChange::Show);
    for _ in 0..10 {
        assert_eq!(i.blink(), BlinkChange::Keep);
    }
    assert_eq!(i.blink(), BlinkChange::Hide);
    for _ in 0..9 {
        assert_eq!(i.blink(), BlinkChange::Keep);
    }
    assert_eq!(i.blink(), BlinkChange::Show);
}

#[test]
fn microsoft_accounts_are_not_saved() {
    assert_eq!(saved_accounts(&vec![true, false, false, true]), vec![1, 2]);
    assert_eq!(saved_accounts(&vec![]), Vec::<usize>::new());
    assert_eq!(saved_accounts(&vec![true, true]), Vec::<usize>::new());
    assert_eq!(saved_accounts(&vec![false, false]), vec![0, 1]);
}

#[test]
fn object_hashes() {
    assert!(hash_usable("ab12"));
    assert!(hash_usable("ab"));
    assert!(!hash_usable("a"));
    assert!(!hash_usable(""));
    assert!(!hash_usable("éa"));
    let mut ix = ObjectIndex::new();
    ix.insert("x".to_string(), "ff00".to_string());
    assert_eq!(ix.lookup("x").map(|h| h.as_str()), Some("ff00"));
    assert_eq!(ix.lookup("y"), None);
}

#[test]
fn object_files_are_filed_by_their_first_two_characters() {
    assert_eq!(object_file("ab12cd"), "ab/ab12cd");
    assert_eq!(object_file("0f"), "0f/0f");
}
