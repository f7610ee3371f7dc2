use std::collections::HashMap;

use hexa_icons::acquire::{plan_icon, Acquisition, Action, Event, IconSource};
use hexa_icons::fingerprint::{cache_entry_name, fingerprint};
use hexa_icons::pixels::{encode_icon_png, ExtractError};
use hexa_icons::shortcut::{ResolveError, ShortcutInfo};

/// A driver with an in-memory cache, a scripted link resolver and a counting
/// extractor.
struct World {
    cache: HashMap<String, Vec<u8>>,
    cache_readable: bool,
    links: HashMap<String, ShortcutInfo>,
    resolve_calls: Vec<String>,
    extract_calls: Vec<(String, Option<i32>)>,
    extract_fails: bool,
}

fn png_for(seed: u8) -> Vec<u8> {
    encode_icon_png(1, 1, vec![seed, 0, 0, 255]).expect("encodes")
}

fn link(target: &str, icon_path: &str, icon_index: i32) -> ShortcutInfo {
    ShortcutInfo {
        target: target.to_string(),
        arguments: String::new(),
        working_dir: String::new(),
        icon_path: icon_path.to_string(),
        icon_index,
    }
}

impl World {
    fn new() -> Self {
        World {
            cache: HashMap::new(),
            cache_readable: true,
            links: HashMap::new(),
            resolve_calls: Vec::new(),
            extract_calls: Vec::new(),
            extract_fails: false,
        }
    }

    fn acquire(&mut self, input: &str, try_resolve_link: bool) -> Result<Vec<u8>, ExtractError> {
        let (mut machine, mut action) = Acquisition::new(input.to_string(), try_resolve_link);
        loop {
            let event = match action {
                Action::ResolveLink(path) => {
                    self.resolve_calls.push(path.clone());
                    Event::LinkResolved(self.links.get(&path).cloned().ok_or(ResolveError::Malformed("not a link".to_string())))
                }
                Action::ReadCache(entry) => Event::CacheRead(if self.cache_readable {
                    self.cache.get(&entry).cloned()
                } else {
                    None
                }),
                Action::ExtractDefault(path) => {
                    self.extract_calls.push((path.clone(), None));
                    Event::Extracted(self.extract(path.len() as u8))
                }
                Action::ExtractResource(path, index) => {
                    self.extract_calls.push((path.clone(), Some(index)));
                    Event::Extracted(self.extract(path.len() as u8 ^ index as u8))
                }
                Action::StoreAndReturn(entry, png) => {
                    self.cache.insert(entry, png.clone());
                    return Ok(png);
                }
                Action::Return(png) => return Ok(png),
                Action::Fail(err) => return Err(err),
            };
            assert!(machine.accepts(&event));
            action = machine.step(event);
        }
    }

    fn extract(&self, seed: u8) -> Result<Vec<u8>, ExtractError> {
        if self.extract_fails {
            Err(ExtractError::NotFound("no such file".to_string()))
        } else {
            Ok(png_for(seed))
        }
    }
}

#[test]
fn scenario_plain_path_is_cached() {
    let mut w = World::new();
    let first = w.acquire("C:\\apps\\tool.exe", false).unwrap();
    assert_eq!(w.extract_calls, vec![("C:\\apps\\tool.exe".to_string(), None)]);
    assert!(w.resolve_calls.is_empty());
    let entry = format!("{}.png", fingerprint("C:\\apps\\tool.exe"));
    assert_eq!(w.cache.get(&entry), Some(&first));
    let second = w.acquire("C:\\apps\\tool.exe", false).unwrap();
    assert_eq!(w.extract_calls.len(), 1);
    assert_eq!(first, second);
}

#[test]
fn repeat_acquisition_of_link_hits_cache() {
    let mut w = World::new();
    w.links.insert("C:\\Users\\x\\Desktop\\App.lnk".to_string(), link("C:\\apps\\app.exe", "", 0));
    let first = w.acquire("C:\\Users\\x\\Desktop\\App.lnk", true).unwrap();
    let second = w.acquire("C:\\Users\\x\\Desktop\\App.lnk", true).unwrap();
    assert_eq!(first, second);
    assert_eq!(w.extract_calls.len(), 1);
    assert_eq!(w.cache.len(), 1);
}

#[test]
fn scenario_link_without_icon_uses_target() {
    let mut w = World::new();
    w.links.insert("C:\\Users\\x\\Desktop\\App.lnk".to_string(), link("C:\\apps\\app.exe", "", 0));
    w.acquire("C:\\Users\\x\\Desktop\\App.lnk", true).unwrap();
    assert_eq!(w.resolve_calls, vec!["C:\\Users\\x\\Desktop\\App.lnk".to_string()]);
    assert_eq!(w.extract_calls, vec![("C:\\apps\\app.exe".to_string(), None)]);
    assert!(w.cache.contains_key(&cache_entry_name("C:\\apps\\app.exe")));
}

#[test]
fn scenario_link_with_icon_resource() {
    let mut w = World::new();
    w.links.insert(
        "C:\\Users\\x\\Desktop\\App.lnk".to_string(),
        link("C:\\apps\\app.exe", "C:\\apps\\res.dll", 3),
    );
    w.acquire("C:\\Users\\x\\Desktop\\App.lnk", true).unwrap();
    assert_eq!(w.extract_calls, vec![("C:\\apps\\res.dll".to_string(), Some(3))]);
    assert_eq!(w.cache.len(), 1);
    assert!(w.cache.contains_key(&cache_entry_name("C:\\apps\\res.dll:3")));
    let plan = plan_icon("C:\\Users\\x\\Desktop\\App.lnk", Some(link("C:\\apps\\app.exe", "C:\\apps\\res.dll", 3)));
    assert_eq!(plan.cache_key, "C:\\apps\\res.dll:3");
    assert_eq!(plan.source, IconSource::Resource("C:\\apps\\res.dll".to_string(), 3));
}

#[test]
fn extraction_failure_writes_nothing() {
    let mut w = World::new();
    w.extract_fails = true;
    let r = w.acquire("C:\\nope\\missing.exe", false);
    assert_eq!(r, Err(ExtractError::NotFound("no such file".to_string())));
    assert!(w.cache.is_empty());
    assert_eq!(w.extract_calls.len(), 1);
}

#[test]
fn corrupt_cache_entry_is_regenerated() {
    let mut w = World::new();
    let entry = cache_entry_name("C:\\apps\\tool.exe");
    w.cache.insert(entry.clone(), b"garbage bytes".to_vec());
    let png = w.acquire("C:\\apps\\tool.exe", false).unwrap();
    assert_eq!(w.extract_calls.len(), 1);
    assert_eq!(w.cache.get(&entry), Some(&png));
    assert_ne!(png, b"garbage bytes".to_vec());
}

#[test]
fn unreadable_cache_is_a_miss() {
    let mut w = World::new();
    w.acquire("C:\\apps\\tool.exe", false).unwrap();
    w.cache_readable = false;
    let again = w.acquire("C:\\apps\\tool.exe", false);
    assert!(again.is_ok());
    assert_eq!(w.extract_calls.len(), 2);
}

#[test]
fn shortcuts_sharing_a_resource_share_one_entry() {
    let mut w = World::new();
    w.links.insert("C:\\a\\One.lnk".to_string(), link("C:\\apps\\one.exe", "icons.dll", 0));
    w.links.insert("C:\\b\\Two.lnk".to_string(), link("C:\\apps\\two.exe", "icons.dll", 0));
    let one = w.acquire("C:\\a\\One.lnk", true).unwrap();
    let two = w.acquire("C:\\b\\Two.lnk", true).unwrap();
    assert_eq!(one, two);
    assert_eq!(w.extract_calls, vec![("icons.dll".to_string(), Some(0))]);
    assert_eq!(w.cache.len(), 1);
    let plan_one = plan_icon("C:\\a\\One.lnk", Some(link("C:\\apps\\one.exe", "icons.dll", 0)));
    let plan_two = plan_icon("C:\\b\\Two.lnk", Some(link("C:\\apps\\two.exe", "icons.dll", 0)));
    assert_eq!(plan_one.cache_key, plan_two.cache_key);
    assert_eq!(fingerprint(&plan_one.cache_key), fingerprint(&plan_two.cache_key));
}

#[test]
fn broken_link_falls_back_to_input_path() {
    let mut w = World::new();
    w.acquire("C:\\Users\\x\\Desktop\\Broken.lnk", true).unwrap();
    assert_eq!(w.resolve_calls.len(), 1);
    assert_eq!(w.extract_calls, vec![("C:\\Users\\x\\Desktop\\Broken.lnk".to_string(), None)]);
}

#[test]
fn empty_link_falls_back_to_input_path() {
    let mut w = World::new();
    w.links.insert("C:\\e\\Empty.LNK".to_string(), link("", "", 7));
    w.acquire("C:\\e\\Empty.LNK", true).unwrap();
    assert_eq!(w.extract_calls, vec![("C:\\e\\Empty.LNK".to_string(), None)]);
}

#[test]
fn link_resolution_needs_flag_and_suffix() {
    let mut w = World::new();
    w.links.insert("C:\\x\\App.lnk".to_string(), link("C:\\apps\\app.exe", "", 0));
    w.acquire("C:\\x\\App.lnk", false).unwrap();
    w.acquire("C:\\apps\\tool.exe", true).unwrap();
    assert!(w.resolve_calls.is_empty());
    assert_eq!(
        w.extract_calls,
        vec![("C:\\x\\App.lnk".to_string(), None), ("C:\\apps\\tool.exe".to_string(), None)]
    );
}

#[test]
fn finished_machine_accepts_no_event() {
    let (mut m, a) = Acquisition::new("C:\\apps\\tool.exe".to_string(), false);
    assert_eq!(a, Action::ReadCache(cache_entry_name("C:\\apps\\tool.exe")));
    assert!(!m.accepts(&Event::Extracted(Ok(vec![]))));
    let png = png_for(1);
    let a = m.step(Event::CacheRead(Some(png.clone())));
    assert_eq!(a, Action::Return(png));
    assert!(m.is_done());
    assert!(!m.accepts(&Event::CacheRead(None)));
}

#[test]
fn truncated_cache_entry_is_regenerated() {
    let mut w = World::new();
    let png = w.acquire("C:\\apps\\tool.exe", false).unwrap();
    let entry = cache_entry_name("C:\\apps\\tool.exe");
    w.cache.insert(entry.clone(), png[..png.len() - 4].to_vec());
    let again = w.acquire("C:\\apps\\tool.exe", false).unwrap();
    assert_eq!(again, png);
    assert_eq!(w.extract_calls.len(), 2);
    assert_eq!(w.cache.get(&entry), Some(&png));
}

#[test]
fn frame_without_image_is_regenerated() {
    let mut w = World::new();
    let entry = cache_entry_name("C:\\apps\\tool.exe");
    let frame = vec![137, 80, 78, 71, 13, 10, 26, 10, 0, 0, 0, 0, 73, 69, 78, 68, 174, 66, 96, 130];
    w.cache.insert(entry.clone(), frame.clone());
    let png = w.acquire("C:\\apps\\tool.exe", false).unwrap();
    assert_ne!(png, frame);
    assert_eq!(w.extract_calls.len(), 1);
    assert_eq!(w.cache.get(&entry), Some(&png));
}

#[test]
fn corrupt_body_is_regenerated() {
    let mut w = World::new();
    let png = w.acquire("C:\\apps\\tool.exe", false).unwrap();
    let entry = cache_entry_name("C:\\apps\\tool.exe");
    let mut bad = png.clone();
    let mid = bad.len() / 2;
    bad[mid] ^= 0xFF;
    w.cache.insert(entry.clone(), bad);
    let again = w.acquire("C:\\apps\\tool.exe", false).unwrap();
    assert_eq!(again, png);
    assert_eq!(w.extract_calls.len(), 2);
}

#[test]
fn undecodable_extraction_is_returned_but_not_cached() {
    let (mut m, _) = Acquisition::new("C:\\apps\\tool.exe".to_string(), false);
    m.step(Event::CacheRead(None));
    let odd = vec![1, 2, 3];
    assert_eq!(m.step(Event::Extracted(Ok(odd.clone()))), Action::Return(odd));
}
