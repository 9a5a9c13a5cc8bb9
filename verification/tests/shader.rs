use knukki::shader::{create_fragment_only_shader, hover_circle_shader_description, NO_BORDER_SOURCE, OVAL_SOURCE};
use knukki::shader_cache::ShaderCache;
use knukki::{create_variable_names, shader_description_no_border, FragmentOnlyShader, ShaderId};

#[test]
fn test_variable_names() {
    let names = create_variable_names("color");
    assert_eq!(256, names.len());
    assert_eq!("color0", names[0]);
    assert_eq!("color7", names[7]);
    assert_eq!("color12", names[12]);
    assert_eq!("color100", names[100]);
    assert_eq!("color255", names[255]);
}

#[test]
fn test_shader_hash() {
    let shader = FragmentOnlyShader::new(shader_description_no_border());
    assert_eq!(32, shader.get_hash().len());
    let same = FragmentOnlyShader::new(shader_description_no_border());
    assert_eq!(shader.get_hash(), same.get_hash());
    let other = create_fragment_only_shader();
    assert_ne!(shader.get_hash(), other.get_hash());
    assert_eq!(1, shader.get_description().num_colors);
    assert_eq!(1, other.get_description().num_float_vectors);
}

#[test]
fn test_shader_hash_known_value() {
    let mut description = shader_description_no_border();
    description.source_code = "abc".to_string();
    let shader = FragmentOnlyShader::new(description);
    let expected: Vec<u8> = vec![
        0xba, 0x78, 0x16, 0xbf, 0x8f, 0x01, 0xcf, 0xea, 0x41, 0x41, 0x40, 0xde, 0x5d, 0xae, 0x22,
        0x23, 0xb0, 0x03, 0x61, 0xa3, 0x96, 0x17, 0x7a, 0x9c, 0xb4, 0x10, 0xff, 0x61, 0xf2, 0x00,
        0x15, 0xad,
    ];
    assert_eq!(&expected, shader.get_hash());
}

#[test]
fn test_shader_ids() {
    let a = ShaderId::from_strs("knukki", "DefaultTextShader");
    let b = ShaderId::from_strings("knukki".to_string(), "DefaultTextShader".to_string());
    assert!(a.same_as(&b));
    assert!(!a.same_as(&ShaderId::from_strs("knukki", "Other")));
    assert_eq!("knukki", a.get_crate_name());
    assert_eq!("DefaultTextShader", a.get_shader_name());
}

#[test]
fn test_cache_hits_and_eviction() {
    let mut cache: ShaderCache<u32> = ShaderCache::new(4);
    for (index, name) in ["a", "b", "c", "d"].iter().enumerate() {
        cache.tick();
        let id = ShaderId::from_strs("test", name);
        assert!(!cache.contains(&id));
        cache.make_room();
        let value = cache.insert(id, index as u32);
        assert_eq!(index as u32, *value);
    }
    assert_eq!(4, cache.len());

    // Use "a" again, so that it is the most recently used one
    cache.tick();
    let a = ShaderId::from_strs("test", "a");
    assert!(cache.contains(&a));
    assert_eq!(0, *cache.get_existing(&a));

    // Adding a fifth value drops every value used no later than the median
    // time of last use: b (2), c (3) and d (4) go, since the median of
    // 2, 3, 4, 5 is 4; only a (5) stays.
    cache.tick();
    cache.make_room();
    assert_eq!(1, cache.len());
    assert!(cache.contains(&a));
    assert!(!cache.contains(&ShaderId::from_strs("test", "b")));
    assert!(!cache.contains(&ShaderId::from_strs("test", "c")));
    assert!(!cache.contains(&ShaderId::from_strs("test", "d")));
    cache.insert(ShaderId::from_strs("test", "e"), 4);
    assert_eq!(2, cache.len());
}

#[test]
fn test_cache_no_eviction_below_max() {
    let mut cache: ShaderCache<u32> = ShaderCache::new(3);
    cache.tick();
    cache.make_room();
    cache.insert(ShaderId::from_strs("x", "1"), 1);
    cache.tick();
    cache.make_room();
    cache.insert(ShaderId::from_strs("x", "2"), 2);
    cache.make_room();
    assert_eq!(2, cache.len());
    *cache.get_existing(&ShaderId::from_strs("x", "1")) = 10;
    assert_eq!(10, *cache.get_existing(&ShaderId::from_strs("x", "1")));
}

#[test]
fn test_use_shader_creates_once() {
    let mut cache: ShaderCache<u32> = ShaderCache::new(10);
    let id = ShaderId::from_strs("test", "once");
    let mut created = 0;
    for round in 0..3u32 {
        let mut seen = None;
        let result: Result<(), String> = cache.use_shader(
            &id,
            || {
                created += 1;
                Ok(7)
            },
            |value: &mut u32| {
                *value += round;
                seen = Some(*value);
                Ok(())
            },
        );
        assert_eq!(Ok(()), result);
        assert!(seen.is_some());
    }
    assert_eq!(1, created);
    assert_eq!(1, cache.len());
    assert_eq!(3, cache.get_time());
    // 7 + 0 + 1 + 2
    assert_eq!(10, *cache.get_existing(&id));
}

#[test]
fn test_use_shader_error_caches_nothing() {
    let mut cache: ShaderCache<u32> = ShaderCache::new(2);
    let id = ShaderId::from_strs("test", "broken");
    let mut used = false;
    let result = cache.use_shader(
        &id,
        || Err("compile error".to_string()),
        |_value: &mut u32| {
            used = true;
            Ok(())
        },
    );
    assert_eq!(Err("compile error".to_string()), result);
    assert!(!used);
    assert_eq!(0, cache.len());
    assert!(!cache.contains(&id));
}

#[test]
fn test_use_shader_drops_most_when_full() {
    let mut cache: ShaderCache<u32> = ShaderCache::new(5);
    for (index, name) in ["a", "b", "c", "d", "e"].iter().enumerate() {
        let result: Result<(), ()> = cache.use_shader(
            &ShaderId::from_strs("test", name),
            || Ok(index as u32),
            |_value: &mut u32| Ok(()),
        );
        assert_eq!(Ok(()), result);
    }
    assert_eq!(5, cache.len());
    // The times of last use are 1, 2, 3, 4, 5 with median 3: a, b and c go.
    let result: Result<(), ()> =
        cache.use_shader(&ShaderId::from_strs("test", "f"), || Ok(5), |_value: &mut u32| Ok(()));
    assert_eq!(Ok(()), result);
    assert_eq!(3, cache.len());
    assert!(!cache.contains(&ShaderId::from_strs("test", "a")));
    assert!(!cache.contains(&ShaderId::from_strs("test", "c")));
    assert!(cache.contains(&ShaderId::from_strs("test", "d")));
    assert!(cache.contains(&ShaderId::from_strs("test", "e")));
    assert!(cache.contains(&ShaderId::from_strs("test", "f")));
}

#[test]
fn test_description_sources() {
    let no_border = shader_description_no_border();
    assert_eq!(NO_BORDER_SOURCE, no_border.source_code);
    assert!(no_border.source_code.contains("gl_FragColor = color1;"));
    let oval = hover_circle_shader_description();
    assert_eq!(OVAL_SOURCE, oval.source_code);
    assert!(oval.source_code.contains("discard;"));
    let shader = create_fragment_only_shader();
    assert_eq!(OVAL_SOURCE, shader.get_description().source_code);
    assert_eq!(FragmentOnlyShader::new(hover_circle_shader_description()).get_hash(), shader.get_hash());
}
