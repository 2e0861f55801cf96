use mutter::paint_node::Rgba;
use mutter::paint_nodes::{PipelineHandle, TextureHandle};
use mutter::pipeline_cache::{BlendMode, PipelineCache, PipelineKey, DEFAULT_CAPACITY};

fn red() -> Rgba {
    Rgba::new(255, 0, 0, 255)
}

fn blue() -> Rgba {
    Rgba::new(0, 0, 255, 255)
}

#[test]
fn new_cache_is_empty() {
    let cache = PipelineCache::new(8);
    assert!(cache.is_empty());
    assert_eq!(cache.capacity(), 8);
}

#[test]
fn default_capacity() {
    let cache = PipelineCache::default();
    assert_eq!(cache.capacity(), DEFAULT_CAPACITY);
}

#[test]
fn get_or_create_inserts_on_miss() {
    let mut cache = PipelineCache::new(8);
    let key = PipelineKey::solid(red());
    let handle = cache.get_or_create(key);
    assert_eq!(cache.len(), 1);
    assert!(cache.contains(&key));
    assert_eq!(handle, PipelineHandle(1));
}

#[test]
fn get_or_create_returns_same_on_hit() {
    let mut cache = PipelineCache::new(8);
    let key = PipelineKey::solid(red());
    let h1 = cache.get_or_create(key);
    let h2 = cache.get_or_create(key);
    assert_eq!(h1, h2);
    assert_eq!(cache.len(), 1);
}

#[test]
fn different_keys_get_different_handles() {
    let mut cache = PipelineCache::new(8);
    let h1 = cache.get_or_create(PipelineKey::solid(red()));
    let h2 = cache.get_or_create(PipelineKey::solid(blue()));
    assert_ne!(h1, h2);
    assert_eq!(cache.len(), 2);
}

#[test]
fn lru_eviction_when_at_capacity() {
    let mut cache = PipelineCache::new(3);
    let k1 = PipelineKey::solid(red());
    let k2 = PipelineKey::solid(blue());
    let k3 = PipelineKey::new(BlendMode::AlphaBlend, red(), None, 0);
    let k4 = PipelineKey::new(BlendMode::Additive, blue(), None, 0);
    cache.get_or_create(k1);
    cache.get_or_create(k2);
    cache.get_or_create(k3);
    assert_eq!(cache.len(), 3);
    cache.get_or_create(k4);
    assert_eq!(cache.len(), 3);
    assert!(!cache.contains(&k1));
    assert!(cache.contains(&k4));
}

#[test]
fn cache_hit_moves_to_mru_preventing_eviction() {
    let mut cache = PipelineCache::new(3);
    let k1 = PipelineKey::solid(red());
    let k2 = PipelineKey::solid(blue());
    let k3 = PipelineKey::new(BlendMode::AlphaBlend, red(), None, 0);
    let k4 = PipelineKey::new(BlendMode::Additive, blue(), None, 0);
    cache.get_or_create(k1);
    cache.get_or_create(k2);
    cache.get_or_create(k3);
    cache.get_or_create(k1);
    cache.get_or_create(k4);
    assert!(cache.contains(&k1));
    assert!(!cache.contains(&k2));
}

#[test]
fn evict_lru_returns_entry() {
    let mut cache = PipelineCache::new(8);
    let k1 = PipelineKey::solid(red());
    let k2 = PipelineKey::solid(blue());
    cache.get_or_create(k1);
    cache.get_or_create(k2);
    let evicted = cache.evict_least_recently_used();
    assert!(evicted.is_some());
    assert_eq!(evicted.unwrap().0, k1);
}

#[test]
fn clear_empties_cache() {
    let mut cache = PipelineCache::new(8);
    cache.get_or_create(PipelineKey::solid(red()));
    cache.get_or_create(PipelineKey::solid(blue()));
    cache.clear();
    assert!(cache.is_empty());
}

#[test]
fn textured_key_factory() {
    let key = PipelineKey::textured(TextureHandle(7));
    assert_eq!(key.texture, Some(TextureHandle(7)));
    assert_eq!(key.blend_mode, BlendMode::Premultiplied);
}

#[test]
fn many_inserts_respect_capacity() {
    let mut cache = PipelineCache::new(4);
    for i in 0..10u8 {
        cache.get_or_create(PipelineKey::new(BlendMode::NoBlend, Rgba::new(i, 0, 0, 255), None, 0));
    }
    assert_eq!(cache.len(), 4);
}

#[test]
fn zero_capacity_becomes_one() {
    let mut cache = PipelineCache::new(0);
    assert_eq!(cache.capacity(), 1);
    cache.get_or_create(PipelineKey::solid(red()));
    cache.get_or_create(PipelineKey::solid(blue()));
    assert_eq!(cache.len(), 1);
    assert!(cache.contains(&PipelineKey::solid(blue())));
}

#[test]
fn get_misses_without_inserting_and_hits_promote() {
    let mut cache = PipelineCache::new(2);
    let k1 = PipelineKey::solid(red());
    let k2 = PipelineKey::solid(blue());
    assert_eq!(cache.get(&k1), None);
    assert!(cache.is_empty());
    let h1 = cache.get_or_create(k1);
    cache.get_or_create(k2);
    assert_eq!(cache.keys(), vec![k2, k1]);
    assert_eq!(cache.get(&k1), Some(h1));
    assert_eq!(cache.keys(), vec![k1, k2]);
}

#[test]
fn handles_count_up_and_evicted_key_gets_new_handle() {
    let mut cache = PipelineCache::new(1);
    let k1 = PipelineKey::solid(red());
    let k2 = PipelineKey::solid(blue());
    assert_eq!(cache.get_or_create(k1), PipelineHandle(1));
    assert_eq!(cache.get_or_create(k2), PipelineHandle(2));
    assert_eq!(cache.get_or_create(k1), PipelineHandle(3));
}

#[test]
fn evict_on_empty_returns_none() {
    let mut cache = PipelineCache::new(2);
    assert_eq!(cache.evict_least_recently_used(), None);
    let k1 = PipelineKey::solid(red());
    let h1 = cache.get_or_create(k1);
    assert_eq!(cache.evict_least_recently_used(), Some((k1, h1)));
    assert!(cache.is_empty());
}
