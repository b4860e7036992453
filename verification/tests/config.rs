use weylus::config::{PipewirePipeline, ThemeType};

#[test]
fn pipeline_list_has_all_five_variants() {
    let v = PipewirePipeline::variants();
    assert_eq!(v.len(), 5);
    assert!(v.contains(&PipewirePipeline::Dmabuf));
    assert!(v.contains(&PipewirePipeline::LinearCpu));
}

#[test]
fn pipeline_names_are_stable() {
    assert_eq!(PipewirePipeline::Dmabuf.name(), "Zero-copy (DMA-BUF)");
    assert_eq!(PipewirePipeline::LinearCpu.name(), "Linear CPU");
}

#[test]
fn pipeline_index_round_trips() {
    for (i, p) in PipewirePipeline::variants().iter().enumerate() {
        assert_eq!(p.to_index(), i as i32);
        assert_eq!(PipewirePipeline::from_index(i as i32), *p);
    }
}

#[test]
fn pipeline_list_order() {
    assert_eq!(
        PipewirePipeline::variants(),
        vec![
            PipewirePipeline::Auto,
            PipewirePipeline::Dmabuf,
            PipewirePipeline::LinearCpu,
            PipewirePipeline::Gl,
            PipewirePipeline::Direct,
        ]
    );
    assert_eq!(PipewirePipeline::Gl.name(), "GL");
    assert_eq!(PipewirePipeline::default(), PipewirePipeline::Auto);
}

#[test]
fn theme_index_round_trips() {
    let themes = ThemeType::themes();
    assert_eq!(themes.len(), 8);
    for (i, t) in themes.iter().enumerate() {
        assert_eq!(t.to_index(), i as i32);
        assert_eq!(ThemeType::from_index(i as i32), *t);
    }
}

#[test]
fn theme_names_and_default() {
    assert_eq!(ThemeType::default(), ThemeType::Greybird);
    assert_eq!(ThemeType::Greybird.name(), "Greybird");
    assert_eq!(ThemeType::HighContrast.name(), "HighContrast");
}

#[test]
fn out_of_range_indices_clamp() {
    assert_eq!(ThemeType::from_index(-3), ThemeType::from_index(0));
    assert_eq!(ThemeType::from_index(100), ThemeType::Metro);
    assert_eq!(PipewirePipeline::from_index(-1), PipewirePipeline::Auto);
    assert_eq!(PipewirePipeline::from_index(99), PipewirePipeline::Direct);
}
