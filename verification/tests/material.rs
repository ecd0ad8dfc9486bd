use garjan::material::Material;
use garjan::modal::ModePattern;

#[test]
fn material_mode_table() {
    let table = [
        (Material::Metal, ModePattern::Plate, 12),
        (Material::Wood, ModePattern::Beam, 8),
        (Material::Stone, ModePattern::Plate, 6),
        (Material::Earth, ModePattern::Damped, 4),
        (Material::Glass, ModePattern::Plate, 10),
        (Material::Fabric, ModePattern::Damped, 4),
        (Material::Leaf, ModePattern::Beam, 5),
        (Material::Water, ModePattern::Harmonic, 6),
        (Material::Plastic, ModePattern::StiffString, 6),
        (Material::Ceramic, ModePattern::Plate, 8),
    ];
    for (m, p, n) in table {
        assert_eq!(m.mode_pattern(), p, "{m:?}");
        assert_eq!(m.mode_count(), n, "{m:?}");
    }
}

#[test]
fn impacts_ring_with_four_to_twelve_modes() {
    let all = [
        Material::Metal,
        Material::Wood,
        Material::Stone,
        Material::Earth,
        Material::Glass,
        Material::Fabric,
        Material::Leaf,
        Material::Water,
        Material::Plastic,
        Material::Ceramic,
    ];
    for m in all {
        assert!((4..=12).contains(&m.mode_count()), "{m:?}");
    }
}
