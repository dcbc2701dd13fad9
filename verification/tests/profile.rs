use solana_programs::profile::{initialize, profile_fits, FacebookAccount, Initialize, ProfileError, Update};

fn init_ctx() -> Initialize {
    Initialize { user: [3u8; 32], facebook_account_bump: 251 }
}

#[test]
fn test_initialize() {
    let ctx = init_ctx();
    let fb_data =
        initialize(&ctx, "rusty".to_string(), "building".to_string(), "rustydevv".to_string()).unwrap();
    assert_eq!(fb_data.name, "rusty");
    assert_eq!(fb_data.status, "building");
    assert_eq!(fb_data.twitter, "rustydevv");
    assert_eq!(fb_data.authority, ctx.user);
    assert_eq!(fb_data.bump, 251);
}

#[test]
fn update() {
    let ctx = init_ctx();
    let account =
        initialize(&ctx, "rusty".to_string(), "building".to_string(), "rustydevv".to_string()).unwrap();
    let mut up = Update { facebook_account: account };
    solana_programs::profile::update(&mut up, String::from("new status")).unwrap();
    let fb_data = up.facebook_account;
    assert_eq!("new status", fb_data.status);
    assert_eq!(fb_data.name, "rusty");
    assert_eq!(fb_data.twitter, "rustydevv");
    assert_eq!(fb_data.authority, ctx.user);
}

#[test]
fn account_space_is_the_declared_one() {
    assert_eq!(FacebookAccount::INIT_SPACE, 32 + 1 + (4 + 10) + (4 + 100) + (4 + 10));
    assert_eq!(FacebookAccount::SPACE, 8 + FacebookAccount::INIT_SPACE);
}

#[test]
fn status_must_fit_in_the_account() {
    let ctx = init_ctx();
    let account =
        initialize(&ctx, "rusty".to_string(), "building".to_string(), "rustydevv".to_string()).unwrap();
    let mut up = Update { facebook_account: account };
    // 8 + 32 + 1 + 4 + 5 + 4 + s + 4 + 9 <= 173 leaves 106 bytes for the status.
    assert!(solana_programs::profile::update(&mut up, "a".repeat(106)).is_ok());
    assert_eq!(up.facebook_account.status.len(), 106);
    assert_eq!(solana_programs::profile::update(&mut up, "b".repeat(107)), Err(ProfileError::AccountDidNotSerialize));
    assert_eq!(up.facebook_account.status, "a".repeat(106));
}

#[test]
fn lengths_count_utf8_bytes() {
    // "é" takes two bytes: 53 of them are 106 bytes, 54 are too many.
    let name = "rusty".to_string();
    let twitter = "rustydevv".to_string();
    assert!(profile_fits(&name, &"é".repeat(53), &twitter));
    assert!(!profile_fits(&name, &"é".repeat(54), &twitter));
}

#[test]
fn initialize_refuses_what_does_not_fit() {
    let ctx = init_ctx();
    // A name longer than its declared 10 bytes still fits while the total does.
    assert!(initialize(&ctx, "x".repeat(40), "s".to_string(), "t".to_string()).is_ok());
    let r = initialize(&ctx, "x".repeat(60), "s".repeat(60), "t".repeat(10));
    assert!(matches!(r, Err(ProfileError::AccountDidNotSerialize)));
}
