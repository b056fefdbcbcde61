use quick_response::host::BuildStep;
use quick_response::mode::{
    QuickResponseMode, QuickResponseParameters, QuickResponseParametersWithNoBaseFps,
};
use quick_response::plugin::QuickResponsePlugin;
use quick_response::policy::{PresentMode, TargetOs, UpdateCadence};
use quick_response::rate::Fps;

fn hertz(frames_per_second: u32) -> Fps {
    Fps::from_hertz(frames_per_second).unwrap()
}

fn every_plugin() -> Vec<QuickResponsePlugin> {
    let mut all = vec![
        QuickResponsePlugin::default(),
        QuickResponsePlugin::fast_vsync(hertz(30), hertz(60)),
        QuickResponsePlugin::immediate(hertz(60), hertz(60)),
        QuickResponsePlugin::auto_no_vsync(hertz(50), hertz(100)),
        QuickResponsePlugin::power_saving(hertz(60)),
        QuickResponsePlugin::none(true),
        QuickResponsePlugin::none(false),
    ];
    let cleared: Vec<QuickResponsePlugin> = all.iter().map(|p| p.with_no_default_plugins()).collect();
    all.extend(cleared);
    let suppressed: Vec<QuickResponsePlugin> = all.iter().map(|p| p.with_no_framepace_for_test()).collect();
    all.extend(suppressed);
    all
}

#[test]
fn constructors_install_the_defaults_and_keep_the_limiter() {
    assert_eq!(
        QuickResponsePlugin::fast_vsync(hertz(30), hertz(60)).mode,
        QuickResponseMode::FastVsync(QuickResponseParameters {
            base_fps: hertz(30),
            max_fps: hertz(60),
            auto_init_default_plugins: true,
        })
    );
    assert_eq!(
        QuickResponsePlugin::immediate(hertz(30), hertz(60)).mode,
        QuickResponseMode::Immediate(QuickResponseParameters {
            base_fps: hertz(30),
            max_fps: hertz(60),
            auto_init_default_plugins: true,
        })
    );
    assert_eq!(
        QuickResponsePlugin::auto_no_vsync(hertz(30), hertz(60)).mode,
        QuickResponseMode::AutoNoVsync(QuickResponseParameters {
            base_fps: hertz(30),
            max_fps: hertz(60),
            auto_init_default_plugins: true,
        })
    );
    assert_eq!(QuickResponsePlugin::none(true).mode, QuickResponseMode::Passthrough(true));
    assert_eq!(QuickResponsePlugin::none(false).mode, QuickResponseMode::Passthrough(false));
    assert_eq!(QuickResponsePlugin::none(true).mode(), QuickResponseMode::Passthrough(true));
    for plugin in [
        QuickResponsePlugin::fast_vsync(hertz(30), hertz(60)),
        QuickResponsePlugin::power_saving(hertz(60)),
        QuickResponsePlugin::none(true),
        QuickResponsePlugin::new(QuickResponseMode::default()),
    ] {
        assert!(!plugin.limiter_suppressed());
        assert!(plugin.with_no_framepace_for_test().limiter_suppressed());
        assert_eq!(plugin.with_no_framepace_for_test().mode, plugin.mode);
    }
}

#[test]
fn no_default_plugins_is_idempotent() {
    for plugin in every_plugin() {
        let once = plugin.with_no_default_plugins();
        assert_eq!(once.with_no_default_plugins(), once);
    }
}

#[test]
fn no_default_plugins_normalises_passthrough() {
    for install in [false, true] {
        assert_eq!(
            QuickResponsePlugin::none(install).with_no_default_plugins(),
            QuickResponsePlugin::none(false)
        );
    }
}

#[test]
fn no_default_plugins_keeps_the_rates() {
    assert_eq!(
        QuickResponsePlugin::fast_vsync(hertz(30), hertz(60)).with_no_default_plugins().mode,
        QuickResponseMode::FastVsync(QuickResponseParameters {
            base_fps: hertz(30),
            max_fps: hertz(60),
            auto_init_default_plugins: false,
        })
    );
    assert_eq!(
        QuickResponsePlugin::immediate(hertz(24), hertz(48)).with_no_default_plugins().mode,
        QuickResponseMode::Immediate(QuickResponseParameters {
            base_fps: hertz(24),
            max_fps: hertz(48),
            auto_init_default_plugins: false,
        })
    );
    assert_eq!(
        QuickResponsePlugin::auto_no_vsync(hertz(50), hertz(100)).with_no_default_plugins().mode,
        QuickResponseMode::AutoNoVsync(QuickResponseParameters {
            base_fps: hertz(50),
            max_fps: hertz(100),
            auto_init_default_plugins: false,
        })
    );
    assert_eq!(
        QuickResponsePlugin::power_saving(hertz(75)).with_no_default_plugins().mode,
        QuickResponseMode::PowerSaving(QuickResponseParametersWithNoBaseFps {
            max_fps: hertz(75),
            auto_init_default_plugins: false,
        })
    );
}

#[test]
fn no_default_plugins_keeps_the_suppression_of_the_limiter() {
    let suppressed = QuickResponsePlugin::default().with_no_framepace_for_test();
    assert!(suppressed.with_no_default_plugins().limiter_suppressed());
    assert!(!QuickResponsePlugin::default().with_no_default_plugins().limiter_suppressed());
}

#[test]
fn passthrough_without_defaults_builds_nothing() {
    for os in [TargetOs::Windows, TargetOs::Linux, TargetOs::MacOs, TargetOs::Other] {
        for registered in [false, true] {
            assert_eq!(QuickResponsePlugin::none(false).build(os, registered), vec![]);
            assert_eq!(
                QuickResponsePlugin::none(false).with_no_framepace_for_test().build(os, registered),
                vec![]
            );
        }
    }
}

#[test]
fn passthrough_with_defaults_builds_the_defaults_only() {
    for os in [TargetOs::Windows, TargetOs::Linux, TargetOs::MacOs, TargetOs::Other] {
        for registered in [false, true] {
            assert_eq!(
                QuickResponsePlugin::none(true).build(os, registered),
                vec![BuildStep::InstallHostDefaults { present_mode: None }]
            );
        }
    }
}

#[test]
fn default_plugin_builds_all_four_steps_in_order() {
    let wait = UpdateCadence::ReactiveLowPower { wait_nanos: 16_666_667 };
    assert_eq!(
        QuickResponsePlugin::default().build(TargetOs::Windows, false),
        vec![
            BuildStep::InsertEventLoopSettings { focused: wait, unfocused: wait },
            BuildStep::InstallHostDefaults { present_mode: Some(PresentMode::Mailbox) },
            BuildStep::RegisterLimiter,
            BuildStep::SetFramerateCapAtStartup { cap: hertz(120) },
        ]
    );
    assert_eq!(
        QuickResponsePlugin::default().build(TargetOs::MacOs, true),
        vec![
            BuildStep::InsertEventLoopSettings { focused: wait, unfocused: wait },
            BuildStep::InstallHostDefaults { present_mode: Some(PresentMode::AutoNoVsync) },
            BuildStep::SetFramerateCapAtStartup { cap: hertz(120) },
        ]
    );
}

#[test]
fn power_saving_builds_the_desktop_preset() {
    assert_eq!(
        QuickResponsePlugin::power_saving(hertz(60)).with_no_default_plugins().build(TargetOs::Linux, false),
        vec![
            BuildStep::InsertEventLoopSettings {
                focused: UpdateCadence::DesktopApp,
                unfocused: UpdateCadence::DesktopApp,
            },
            BuildStep::RegisterLimiter,
            BuildStep::SetFramerateCapAtStartup { cap: hertz(60) },
        ]
    );
}

#[test]
fn suppressed_limiter_builds_no_registration_and_still_the_cap() {
    let wait = UpdateCadence::ReactiveLowPower { wait_nanos: 16_666_667 };
    let plugin = QuickResponsePlugin::default().with_no_default_plugins().with_no_framepace_for_test();
    for registered in [false, true] {
        assert_eq!(
            plugin.build(TargetOs::Linux, registered),
            vec![
                BuildStep::InsertEventLoopSettings { focused: wait, unfocused: wait },
                BuildStep::SetFramerateCapAtStartup { cap: hertz(120) },
            ]
        );
    }
    let with_defaults = QuickResponsePlugin::power_saving(hertz(60)).with_no_framepace_for_test();
    assert_eq!(
        with_defaults.build(TargetOs::MacOs, false),
        vec![
            BuildStep::InsertEventLoopSettings {
                focused: UpdateCadence::DesktopApp,
                unfocused: UpdateCadence::DesktopApp,
            },
            BuildStep::InstallHostDefaults { present_mode: Some(PresentMode::AutoNoVsync) },
            BuildStep::SetFramerateCapAtStartup { cap: hertz(60) },
        ]
    );
}

#[test]
fn cap_is_the_last_step_of_every_mode_but_passthrough() {
    for plugin in every_plugin() {
        for registered in [false, true] {
            let steps = plugin.build(TargetOs::Windows, registered);
            let caps = steps.iter()
                .filter(|s| matches!(s, BuildStep::SetFramerateCapAtStartup { .. }))
                .count();
            let max_fps = match plugin.mode {
                QuickResponseMode::FastVsync(p) => Some(p.max_fps),
                QuickResponseMode::Immediate(p) => Some(p.max_fps),
                QuickResponseMode::AutoNoVsync(p) => Some(p.max_fps),
                QuickResponseMode::PowerSaving(p) => Some(p.max_fps),
                QuickResponseMode::Passthrough(_) => None,
            };
            match max_fps {
                Some(cap) => {
                    assert_eq!(caps, 1);
                    assert_eq!(steps.last(), Some(&BuildStep::SetFramerateCapAtStartup { cap }));
                }
                None => assert_eq!(caps, 0),
            }
        }
    }
}

#[test]
fn limiter_is_registered_exactly_for_limited_modes_that_are_not_suppressed() {
    for plugin in every_plugin() {
        for os in [TargetOs::Windows, TargetOs::Linux, TargetOs::MacOs, TargetOs::Other] {
            let steps = plugin.build(os, false);
            let expected = !matches!(plugin.mode, QuickResponseMode::Passthrough(_))
                && !plugin.limiter_suppressed();
            assert_eq!(steps.contains(&BuildStep::RegisterLimiter), expected);
            assert!(steps.iter().filter(|s| **s == BuildStep::RegisterLimiter).count() <= 1);
        }
    }
}

#[test]
fn second_build_does_not_register_the_limiter_again() {
    for plugin in every_plugin() {
        for before in [false, true] {
            let first = plugin.build(TargetOs::Linux, before);
            let after = before || first.contains(&BuildStep::RegisterLimiter);
            let second = plugin.build(TargetOs::Linux, after);
            let registrations = first.iter().chain(second.iter())
                .filter(|s| **s == BuildStep::RegisterLimiter)
                .count();
            assert!(registrations <= 1);
            if before {
                assert_eq!(registrations, 0);
            }
        }
    }
}

#[test]
fn event_loop_settings_are_the_first_step() {
    for plugin in every_plugin() {
        let steps = plugin.build(TargetOs::Other, false);
        if !matches!(plugin.mode, QuickResponseMode::Passthrough(_)) {
            assert!(matches!(steps[0], BuildStep::InsertEventLoopSettings { .. }));
            assert!(steps[1..].iter().all(|s| !matches!(s, BuildStep::InsertEventLoopSettings { .. })));
        }
    }
}
