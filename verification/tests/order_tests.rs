use pizza_order::order::{base_order, gen_order};

#[test]
fn fifteen_carnivores_fill_the_ratio_exactly() {
    // Fifteen pizzas of carnivore demand hit the weight total exactly:
    // every variety gets its full weight and no top-up is needed.
    let o = gen_order(15, 0);
    assert_eq!(o.dbc, 3);
    assert_eq!(o.sup, 2);
    assert_eq!(o.pep, 2);
    assert_eq!(o.bao, 2);
    assert_eq!(o.haw, 1);
    assert_eq!(o.che, 1);
    assert_eq!(o.mar, 1);
    assert_eq!(o.bpo, 1);
    assert_eq!(o.bml, 1);
    assert_eq!(o.eme, 1);
    assert_eq!(o.veg, 0);
    assert_eq!(o.gar, 4);
    assert_eq!(o.dri, 6);
    assert_eq!(o.sum(), 15);
}

#[test]
fn four_vegetarians_get_cheese_and_vegetarian_only() {
    let o = gen_order(0, 4);
    assert_eq!(o.dbc, 0);
    assert_eq!(o.sup, 0);
    assert_eq!(o.pep, 0);
    assert_eq!(o.bao, 0);
    assert_eq!(o.haw, 0);
    assert_eq!(o.che, 1);
    assert_eq!(o.mar, 0);
    assert_eq!(o.bpo, 0);
    assert_eq!(o.bml, 0);
    assert_eq!(o.eme, 0);
    assert_eq!(o.veg, 3);
    assert_eq!(o.gar, 0);
    assert_eq!(o.dri, 2);
    assert_eq!(o.sum(), 4);
}

#[test]
fn order_total_matches_demand() {
    for people in 0u16..40 {
        for veg in 0u16..20 {
            let o = gen_order(people, veg);
            let total = o.sum();
            assert!(total <= people + veg);
            if people + veg > 0 {
                assert!(total + 1 >= people + veg);
            }
            assert_eq!(total, people + veg);
        }
    }
}

#[test]
fn base_counts_are_deterministic() {
    // The base allocation draws no randomness: identical inputs give
    // identical counts, run after run.
    let a = base_order(23, 9);
    let b = base_order(23, 9);
    assert_eq!(a, b);
    assert_eq!(a.dbc, 23 * 3 / 15);
    assert_eq!(a.sup, 23 * 2 / 15);
    assert_eq!(a.che, 23 / 15 + 9 / 4);
    assert_eq!(a.veg, (9 * 3 + 3) / 4);
    assert_eq!(a.gar, (23 * 4 + 14) / 15);
    assert_eq!(a.dri, ((23 + 9) * 2 + 4) / 5);
}

#[test]
fn top_up_touches_only_the_six_lightest_varieties() {
    // One pizza short of the demand: exactly one of the six lightest
    // varieties gains a pizza; every other count stays at its base value.
    let base = base_order(16, 0);
    let o = gen_order(16, 0);
    assert_eq!(o.dbc, base.dbc);
    assert_eq!(o.sup, base.sup);
    assert_eq!(o.pep, base.pep);
    assert_eq!(o.bao, base.bao);
    assert_eq!(o.veg, base.veg);
    assert_eq!(o.gar, base.gar);
    assert_eq!(o.dri, base.dri);
    let base_light = base.haw + base.che + base.mar + base.bpo + base.bml + base.eme;
    let light = o.haw + o.che + o.mar + o.bpo + o.bml + o.eme;
    assert_eq!(light, base_light + 1);
    assert!(o.haw >= base.haw);
    assert!(o.che >= base.che);
    assert!(o.mar >= base.mar);
    assert!(o.bpo >= base.bpo);
    assert!(o.bml >= base.bml);
    assert!(o.eme >= base.eme);
}

#[test]
fn empty_order_for_empty_demand() {
    let o = gen_order(0, 0);
    assert_eq!(o.sum(), 0);
    assert_eq!(o.gar, 0);
    assert_eq!(o.dri, 0);
}
