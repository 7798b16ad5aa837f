use life_engine::{
    game_left_up, parse_dimensions, parse_whole_number, setup_left_up, surface_fault_error,
    DimensionError, EngineError, GameSetupCallback, ResumeCallback, SceneChange, SetupLeftUp,
    SurfaceFault,
};

#[test]
fn whole_numbers_parse_like_u32() {
    assert_eq!(parse_whole_number("30"), Some(30));
    assert_eq!(parse_whole_number("+5"), Some(5));
    assert_eq!(parse_whole_number("007"), Some(7));
    assert_eq!(parse_whole_number("0"), Some(0));
    assert_eq!(parse_whole_number("4294967295"), Some(u32::MAX));
    for bad in ["", "+", "-5", "-0", " 5", "5 ", "1.5", "x", "4294967296", "99999999999"] {
        assert_eq!(parse_whole_number(bad), None, "{bad:?}");
        assert_eq!(parse_whole_number(bad), bad.parse::<u32>().ok(), "{bad:?}");
    }
}

#[test]
fn dimensions_accept_valid_pair() {
    assert_eq!(parse_dimensions("30", "30"), Ok((30, 30)));
    assert_eq!(parse_dimensions("1", "8192"), Ok((1, 8192)));
}

#[test]
fn dimension_errors_name_the_first_problem() {
    assert_eq!(parse_dimensions("abc", "0"), Err(DimensionError::WidthNotWhole));
    assert_eq!(parse_dimensions("0", "abc"), Err(DimensionError::WidthZero));
    assert_eq!(parse_dimensions("8193", "5"), Err(DimensionError::WidthTooLarge));
    assert_eq!(parse_dimensions("5", "-1"), Err(DimensionError::HeightNotWhole));
    assert_eq!(parse_dimensions("5", "0"), Err(DimensionError::HeightZero));
    assert_eq!(parse_dimensions("5", "10000"), Err(DimensionError::HeightTooLarge));
}

#[test]
fn dimension_error_messages() {
    assert_eq!(
        DimensionError::WidthNotWhole.message(),
        "failed to parse width as whole number"
    );
    assert_eq!(DimensionError::WidthZero.message(), "width must be greater than 0");
    assert_eq!(
        DimensionError::WidthTooLarge.message(),
        "width exceeds the maximum of 8192"
    );
    assert_eq!(
        DimensionError::HeightNotWhole.message(),
        "failed to parse height as whole number"
    );
    assert_eq!(DimensionError::HeightZero.message(), "height must be greater than 0");
    assert_eq!(
        DimensionError::HeightTooLarge.message(),
        "height exceeds the maximum of 8192"
    );
}

#[test]
fn setup_release_without_go_stays() {
    let (change, redraw, resume) = setup_left_up(SetupLeftUp::DoNothing, "30", "30");
    assert_eq!(change, SceneChange::Stay);
    assert!(!redraw);
    assert!(!resume.get_resume());
}

#[test]
fn setup_go_starts_game_or_shows_error() {
    let (change, redraw, resume) = setup_left_up(SetupLeftUp::Go, "12", "7");
    assert_eq!(change, SceneChange::StartGame(12, 7));
    assert!(redraw);
    assert!(resume.get_resume());

    let (change, redraw, resume) = setup_left_up(SetupLeftUp::Go, "12", "");
    assert_eq!(change, SceneChange::ShowError(DimensionError::HeightNotWhole));
    assert!(redraw);
    assert!(!resume.get_resume());
}

#[test]
fn game_release_returns_to_setup_or_stays() {
    let (change, redraw, resume) = game_left_up(GameSetupCallback::Setup, false);
    assert_eq!(change, SceneChange::ReturnToSetup);
    assert!(redraw);
    assert!(resume.get_resume());

    for r in [false, true] {
        let (change, redraw, resume) = game_left_up(GameSetupCallback::Stay, r);
        assert_eq!(change, SceneChange::Stay);
        assert_eq!(redraw, r);
        assert!(!resume.get_resume());
    }
}

#[test]
fn resume_callbacks_combine_with_or() {
    let mut a = ResumeCallback::new(false);
    a.or(ResumeCallback::new(false));
    assert!(!a.get_resume());
    a.or(ResumeCallback::new(true));
    assert!(a.get_resume());
    a.or(ResumeCallback::new(false));
    assert!(a.get_resume());
}

#[test]
fn surface_faults_map_to_errors() {
    assert_eq!(
        surface_fault_error(SurfaceFault::Lost),
        Some(EngineError::RecoverableSurfaceLoss)
    );
    assert_eq!(
        surface_fault_error(SurfaceFault::OutOfMemory),
        Some(EngineError::ResourceExhausted)
    );
    assert_eq!(surface_fault_error(SurfaceFault::Timeout), None);
    assert_eq!(surface_fault_error(SurfaceFault::Outdated), None);
}
