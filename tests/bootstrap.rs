use repohub::lifecycle::{Directive, Lifecycle, LifecycleEvent, Phase};
use repohub::platform::OsFamily;
use repohub::setup::{SetupStep, TitlebarSetup, MAIN_WINDOW_LABEL};

#[test]
fn gtk_families_customize_titlebar() {
    assert!(OsFamily::Linux.customizes_titlebar());
    assert!(OsFamily::DragonFly.customizes_titlebar());
    assert!(OsFamily::FreeBsd.customizes_titlebar());
    assert!(OsFamily::NetBsd.customizes_titlebar());
    assert!(OsFamily::OpenBsd.customizes_titlebar());
}

#[test]
fn other_families_keep_titlebar() {
    assert!(!OsFamily::Windows.customizes_titlebar());
    assert!(!OsFamily::MacOs.customizes_titlebar());
    assert!(!OsFamily::Other.customizes_titlebar());
}

#[test]
fn main_window_label_is_main() {
    assert_eq!(MAIN_WINDOW_LABEL, "main");
}

#[test]
fn titlebar_cleared_on_linux_when_window_available() {
    let mut setup = TitlebarSetup::new(OsFamily::Linux);
    assert_eq!(setup.pending(), SetupStep::LookUpWindow);
    setup.report(true);
    assert_eq!(setup.pending(), SetupStep::ObtainToolkitHandle);
    setup.report(true);
    assert_eq!(setup.pending(), SetupStep::ClearTitlebar);
    setup.report(true);
    assert_eq!(setup.pending(), SetupStep::Finished);
}

#[test]
fn missing_window_finishes_without_change() {
    let mut setup = TitlebarSetup::new(OsFamily::OpenBsd);
    assert_eq!(setup.pending(), SetupStep::LookUpWindow);
    setup.report(false);
    assert_eq!(setup.pending(), SetupStep::Finished);
}

#[test]
fn missing_toolkit_handle_finishes_without_change() {
    let mut setup = TitlebarSetup::new(OsFamily::FreeBsd);
    setup.report(true);
    assert_eq!(setup.pending(), SetupStep::ObtainToolkitHandle);
    setup.report(false);
    assert_eq!(setup.pending(), SetupStep::Finished);
}

#[test]
fn windows_setup_does_nothing() {
    let setup = TitlebarSetup::new(OsFamily::Windows);
    assert_eq!(setup.pending(), SetupStep::Finished);
    let setup = TitlebarSetup::new(OsFamily::MacOs);
    assert_eq!(setup.step, SetupStep::Finished);
}

#[test]
fn setup_finishes_whatever_is_reported() {
    for os in [OsFamily::Linux, OsFamily::NetBsd, OsFamily::Windows] {
        for outcomes in [[true, true, true], [true, false, true], [false, true, false]] {
            let mut setup = TitlebarSetup::new(os);
            for ok in outcomes {
                setup.report(ok);
            }
            assert_eq!(setup.pending(), SetupStep::Finished);
        }
    }
}

#[test]
fn finished_setup_stays_finished() {
    let mut setup = TitlebarSetup::new(OsFamily::Windows);
    setup.report(true);
    setup.report(false);
    assert_eq!(setup.pending(), SetupStep::Finished);
}

#[test]
fn normal_start_and_exit() {
    let mut life = Lifecycle::new();
    assert_eq!(life.phase, Phase::Initializing);
    assert_eq!(life.handle(LifecycleEvent::SetupCompleted), Directive::EnterEventLoop);
    assert_eq!(life.phase, Phase::Running);
    assert_eq!(life.handle(LifecycleEvent::LoopExited), Directive::ExitNormally);
    assert_eq!(life.phase, Phase::Exited);
    assert_eq!(life.handle(LifecycleEvent::LoopFailed), Directive::Ignore);
    assert_eq!(life.phase, Phase::Exited);
}

#[test]
fn failed_loop_aborts_once() {
    let mut life = Lifecycle::new();
    life.handle(LifecycleEvent::SetupCompleted);
    assert_eq!(life.handle(LifecycleEvent::LoopFailed), Directive::Abort);
    assert_eq!(life.phase, Phase::Aborted);
    assert_eq!(life.handle(LifecycleEvent::LoopFailed), Directive::Ignore);
    assert_eq!(life.handle(LifecycleEvent::SetupCompleted), Directive::Ignore);
    assert_eq!(life.handle(LifecycleEvent::LoopExited), Directive::Ignore);
    assert_eq!(life.phase, Phase::Aborted);
}

#[test]
fn failure_before_setup_aborts() {
    let mut life = Lifecycle::new();
    assert_eq!(life.handle(LifecycleEvent::LoopFailed), Directive::Abort);
    assert_eq!(life.phase, Phase::Aborted);
}

#[test]
fn setup_completes_only_once() {
    let mut life = Lifecycle::new();
    life.handle(LifecycleEvent::SetupCompleted);
    assert_eq!(life.handle(LifecycleEvent::SetupCompleted), Directive::Ignore);
    assert_eq!(life.phase, Phase::Running);
}

#[test]
fn abort_carries_diagnostic() {
    assert_eq!(Directive::Abort.diagnostic(), Some("error while running RepoHub"));
    assert_eq!(Directive::ExitNormally.diagnostic(), None);
    assert_eq!(Directive::EnterEventLoop.diagnostic(), None);
    assert_eq!(Directive::Ignore.diagnostic(), None);
}
