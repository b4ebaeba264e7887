use rand::Rng;
use rand_distr::Normal;
use supply_chain::demand::{
    actual_demand, demand_cap, expected_demand, expected_demand_for_product, sample_at,
    simulation_demand, simulation_demand_all_products, simulation_demand_for_product,
};
use supply_chain::models::{Product, ProductDemandParams, SimulationParams};

fn one_product_params() -> SimulationParams {
    SimulationParams {
        products: vec![Product {
            id: 4,
            name: "Model A".to_string(),
            selling_price: 10,
            liquidation_price: 0,
            monthly_holding_cost: 0,
        }],
        demand_params: vec![
            ProductDemandParams {
                product_id: 4,
                mean_demand: 100,
                std_dev_demand: 20,
                actual_mean_demand: 110,
                actual_std_dev_demand: 25,
            },
            ProductDemandParams {
                product_id: 4,
                mean_demand: 999,
                std_dev_demand: 1,
                actual_mean_demand: 999,
                actual_std_dev_demand: 1,
            },
        ],
        order_change_fee: 0,
    }
}

#[test]
fn test_expected_demand() {
    let demand_params = ProductDemandParams {
        product_id: 0,
        mean_demand: 100,
        std_dev_demand: 20,
        actual_mean_demand: 100,
        actual_std_dev_demand: 25,
    };

    assert_eq!(expected_demand(&demand_params), 100);
}

#[test]
fn test_actual_demand_is_non_negative() {
    let demand_params = ProductDemandParams {
        product_id: 0,
        mean_demand: 100,
        std_dev_demand: 20,
        actual_mean_demand: 100,
        actual_std_dev_demand: 25,
    };
    let mut rng = rand::thread_rng();
    let normal = Normal::new(100.0, 25.0).unwrap();

    for _ in 0..100 {
        let sample: f64 = rng.sample(normal);
        let demand = actual_demand(&demand_params, sample as i64);
        assert!(demand >= 0);
        assert!(demand <= 1000);
        assert!(demand <= 175);
    }
}

#[test]
fn demand_is_floored_at_zero() {
    let dp = one_product_params().demand_params[0];
    assert_eq!(simulation_demand(&dp, false, -1), 0);
    assert_eq!(simulation_demand(&dp, false, 0), 0);
    assert_eq!(simulation_demand(&dp, true, i64::MIN), 0);
}

#[test]
fn demand_is_capped_three_deviations_above_the_mean() {
    let dp = one_product_params().demand_params[0];
    assert_eq!(simulation_demand(&dp, false, 159), 159);
    assert_eq!(simulation_demand(&dp, false, 160), 160);
    assert_eq!(simulation_demand(&dp, false, 161), 160);
    assert_eq!(simulation_demand(&dp, false, i64::MAX), 160);
    assert_eq!(simulation_demand(&dp, true, 184), 184);
    assert_eq!(simulation_demand(&dp, true, 186), 185);
    assert_eq!(actual_demand(&dp, 500), 185);
}

#[test]
fn demand_cap_stays_within_the_quantity_type() {
    assert_eq!(demand_cap(100, 20), 160);
    assert_eq!(demand_cap(u32::MAX, 1), u32::MAX);
    assert_eq!(demand_cap(0, u32::MAX), u32::MAX);
    assert_eq!(demand_cap(0, 0), 0);
}

#[test]
fn first_demand_parameters_of_a_product_count() {
    let params = one_product_params();
    assert_eq!(expected_demand_for_product(&params, 4), 100);
    assert_eq!(simulation_demand_for_product(&params, 4, false, 1000), 160);
    assert_eq!(params.get_demand_params(4).unwrap().mean_demand, 100);
}

#[test]
fn product_without_demand_parameters_has_no_demand() {
    let params = one_product_params();
    assert_eq!(expected_demand_for_product(&params, 5), 0);
    assert_eq!(simulation_demand_for_product(&params, 5, true, 1000), 0);
    assert!(params.get_demand_params(5).is_none());
    assert!(params.get_product(5).is_none());
    assert_eq!(params.get_product(4).unwrap().name, "Model A");
}

#[test]
fn demands_of_all_parameters_use_their_own_samples() {
    let params = one_product_params();
    let demands = simulation_demand_all_products(&params, false, &vec![50]);
    assert_eq!(demands, vec![(4, 50), (4, 0)]);
    let demands = simulation_demand_all_products(&params, true, &vec![5000, 1001, 7]);
    assert_eq!(demands, vec![(4, 185), (4, 1001)]);
}

#[test]
fn missing_sample_counts_as_zero() {
    assert_eq!(sample_at(&vec![3, 4], 1), 4);
    assert_eq!(sample_at(&vec![3, 4], 2), 0);
    assert_eq!(sample_at(&vec![], 0), 0);
}
