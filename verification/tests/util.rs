use ape::buildbot::buildbot_url_for_library;
use ape::handle::{serve, ChannelClosed, Envelope, Host};
use ape::util::{
    core_name_to_library_name, cores_directory, guess_core_name_from_extension, join,
    path_extension, CoreError, CoreManager,
};
use std::path::Path;
use std::sync::mpsc::sync_channel;

#[test]
fn extensions_name_their_plugin() {
    assert_eq!(guess_core_name_from_extension("gb"), Some("gambatte"));
    assert_eq!(guess_core_name_from_extension("gbc"), Some("gambatte"));
    assert_eq!(guess_core_name_from_extension("GBC"), Some("gambatte"));
    assert_eq!(guess_core_name_from_extension("gba"), Some("mgba"));
    assert_eq!(guess_core_name_from_extension("GbA"), Some("mgba"));
    assert_eq!(guess_core_name_from_extension("nes"), None);
    assert_eq!(guess_core_name_from_extension(""), None);
    assert_eq!(guess_core_name_from_extension("gb "), None);
}

#[test]
fn library_names_follow_the_platform() {
    assert_eq!(core_name_to_library_name("mgba", "so"), "mgba_libretro.so");
    assert_eq!(core_name_to_library_name("gambatte", "dll"), "gambatte_libretro.dll");
    assert_eq!(cores_directory(), "./cores/");
}

#[test]
fn manager_is_made_for_a_plugin() {
    let manager = CoreManager::new("mgba".to_string(), "dylib");
    assert_eq!(manager.core_name, "mgba");
    assert_eq!(manager.library_name, "mgba_libretro.dylib");
    assert_eq!(manager.library_dir, "./cores/");
    assert_eq!(manager.library_path, "./cores/mgba_libretro.dylib");
    assert_eq!(
        Path::new(&manager.library_path),
        Path::new(&manager.library_dir).join(&manager.library_name)
    );
}

#[test]
fn manager_is_made_for_a_content_file() {
    let manager = CoreManager::from_rom("roms/Zelda.GB", "so").unwrap();
    assert_eq!(manager.core_name, "gambatte");
    assert_eq!(manager.library_name, "gambatte_libretro.so");
    assert_eq!(manager.library_dir, "./cores/");
    assert_eq!(manager.library_path, "./cores/gambatte_libretro.so");
    let manager = CoreManager::from_rom("/home/me/metroid.fusion.gba", "dll").unwrap();
    assert_eq!(manager.core_name, "mgba");
    assert_eq!(manager.library_path, "./cores/mgba_libretro.dll");
    for rom in ["roms/zelda", "", "roms.gb/", "roms.gb/..", ".gb", "gb"] {
        let expected = Path::new(rom).extension().is_some();
        match CoreManager::from_rom(rom, "so") {
            Err(CoreError::NoExtension) => assert!(!expected, "{rom:?}"),
            other => assert!(expected, "{rom:?}: {:?}", other),
        }
    }
    match CoreManager::from_rom("pack.zip", "so") {
        Err(CoreError::UnknownExtension(extension)) => assert_eq!(extension, "zip"),
        other => panic!("{:?}", other),
    }
    match CoreManager::from_rom("trailing.", "so") {
        Err(CoreError::UnknownExtension(extension)) => assert_eq!(extension, ""),
        other => panic!("{:?}", other),
    }
}

#[test]
fn extensions_are_read_as_std_reads_them() {
    let paths = [
        "", ".", "..", "/", "//", "a", "a.b", "a.b.c", ".a", ".a.b", "a.", "..a", "a..", "...",
        "dir/a.gb", "dir.x/a", "dir.x/a.gb/", "dir.x/a.gb//", "dir/a.gb/.", "dir/a.gb/./",
        "dir/a.gb/..", "dir/..", "./a.gb", "./.", "./", "/.", "/a.b", "a/./b.c", "a//b.c",
        "a/.b", "a/b.", "x.y/.", "x.y/./.", "./..", "../a.b", "a/..b", "é.ü", "a b.c d",
    ];
    for path in paths {
        let expected = Path::new(path).extension().map(|e| e.to_str().unwrap().to_string());
        assert_eq!(path_extension(path), expected, "{path:?}");
    }
}

#[test]
fn paths_are_joined_as_std_joins_them() {
    let cases = [
        ("./cores/", "mgba_libretro.so"),
        ("./cores", "mgba_libretro.so"),
        ("", "a"),
        ("a", ""),
        ("a/", ""),
        ("a", "/b"),
        ("a/", "/b"),
        ("/", "b"),
        ("a/b", "c/d"),
        ("", ""),
    ];
    for (dir, name) in cases {
        let expected = Path::new(dir).join(name);
        assert_eq!(join(dir, name), expected.to_str().unwrap(), "{dir:?} {name:?}");
    }
}

#[test]
fn nightly_builds_are_found_by_platform() {
    let path = |os, arch| buildbot_url_for_library(os, arch, "mgba_libretro.so");
    assert_eq!(
        path("linux", "x86_64"),
        Some(vec!["linux".to_string(), "x86_64".into(), "latest".into(), "mgba_libretro.so.zip".into()])
    );
    assert_eq!(
        path("windows", "x86"),
        Some(vec!["windows".to_string(), "x86".into(), "latest".into(), "mgba_libretro.so.zip".into()])
    );
    assert_eq!(
        path("macos", "arm64"),
        Some(vec![
            "apple".to_string(),
            "osx".into(),
            "arm64".into(),
            "latest".into(),
            "mgba_libretro.so.zip".into()
        ])
    );
    assert_eq!(path("linux", "arm64"), None);
    assert_eq!(path("windows", "aarch64"), None);
    assert_eq!(path("macos", "riscv64"), None);
    assert_eq!(path("freebsd", "x86_64"), None);
}

#[test]
fn a_handle_without_host_reports_the_closed_channel() {
    let host: Host<u32, u32> = Host::new();
    let handle = host.handle();
    std::mem::drop(host);
    assert_eq!(handle.run(1), Err(ChannelClosed));
    assert_eq!(handle.clone().run(2), Err(ChannelClosed));
}

#[test]
fn nightly_builds_have_one_base_address() {
    assert_eq!(ape::buildbot::buildbot_base_url(), "https://buildbot.libretro.com/nightly");
}

#[test]
fn a_host_without_pending_job_returns_at_once() {
    let host: Host<u32, u32> = Host::new();
    let _handle = host.handle();
    assert!(!host.run(|job| job + 1));
    assert!(!host.run(|job| job + 1));
}

#[test]
fn a_taken_job_is_run_and_answered() {
    let (reply, answers) = sync_channel(1);
    let mut seen = Vec::new();
    assert!(serve(Some(Envelope::new(20u32, reply)), |job| {
        seen.push(job);
        job * 2
    }));
    assert_eq!(answers.recv(), Ok(40u32));
    assert_eq!(seen, vec![20]);
    assert!(!serve(None::<Envelope<u32, u32>>, |job| job));
}

#[test]
fn a_job_is_still_run_when_nobody_waits_for_the_answer() {
    let (reply, answers) = sync_channel::<u32>(1);
    std::mem::drop(answers);
    let mut ran = false;
    assert!(serve(Some(Envelope::new(1u32, reply)), |job| {
        ran = true;
        job
    }));
    assert!(ran);
    let (reply, _answers) = sync_channel::<u32>(1);
    assert_eq!(Envelope::new(7u32, reply).into_job(), 7);
}
