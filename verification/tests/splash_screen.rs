use the_hat_chooses_the_wizard::splash_screen::{
    splash_entries, splash_is_over, SplashInput, SplashScreen,
};

#[test]
fn entries_are_the_identity_map() {
    let entries = splash_entries();
    assert_eq!(entries.len(), 600);
    for (i, &tile) in entries.iter().enumerate() {
        assert_eq!(tile as usize, i);
    }
}

#[test]
fn any_button_ends_the_splash_screen() {
    let none = SplashInput { a: false, b: false, start: false, select: false };
    assert!(!splash_is_over(&none));
    assert!(splash_is_over(&SplashInput { a: true, ..none }));
    assert!(splash_is_over(&SplashInput { b: true, ..none }));
    assert!(splash_is_over(&SplashInput { start: true, ..none }));
    assert!(splash_is_over(&SplashInput { select: true, ..none }));
}

#[test]
fn the_two_screens_differ() {
    assert_ne!(SplashScreen::Start, SplashScreen::End);
}
