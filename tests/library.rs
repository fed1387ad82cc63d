use pose::{
    apply_perturbations, calc_planet_perturb, earth_position, epoch_seconds, isqrt_u128,
    moon_position, newton_gravitational_field, parse_inpt, simulate_tick, solar_update_due,
    sun_position, write_out_all_object_parameters, write_out_all_solar_objects, Array3d,
    CartesianCoords, Debris, Environment, EpochError, FieldError, InitData, InputError, ObjKind,
    OutputRecord, Perturbation, PerturbationDelta, SimError, Simobj, SimulationParameters,
    SmallBody, SolarBody, Solarobj, Spacecraft, CENTRIC_INDEX, LIMIT, MU_EARTH,
    solar_system_objs, update_solar_system_objs,
};

fn v(x: i64, y: i64, z: i64) -> Array3d {
    Array3d::new(x, y, z)
}

/// Earth near (-0.1771, 0.9672, 0) AU and the Moon 2.57e-3 AU away, in atto-AU.
fn env_at_j2000() -> Environment {
    let earth = earth_position(-177_100_000_000_000_000, 967_200_000_000_000_000);
    let moon = moon_position(2_570_000_000_000_000, 0, 0);
    Environment::new(0, earth, moon)
}

fn leo_body(id: u32) -> SmallBody {
    SmallBody {
        id,
        kind: ObjKind::Spacecraft,
        position: v(7_000_000_000_000, 0, 0),
        velocity: v(0, 7_546_000_000, 0),
    }
}

#[test]
fn sun_is_at_origin_every_day() {
    for day in [i64::MIN, -86_400, 0, 1, 86_400 * 365, i64::MAX] {
        let c = sun_position(day);
        assert_eq!((c.xh, c.yh, c.zh), (0, 0, 0));
        assert!(c.heliocentric);
        assert!(!c.is_meters);
    }
}

#[test]
fn earth_lies_on_ecliptic() {
    let c = earth_position(-177_100_000_000_000_000, 967_200_000_000_000_000);
    assert_eq!((c.xh, c.yh, c.zh), (-177_100_000_000_000_000, 967_200_000_000_000_000, 0));
    assert!(c.heliocentric);
    let m = moon_position(1, 2, 3);
    assert!(!m.heliocentric);
    assert_eq!((m.xh, m.yh, m.zh), (1, 2, 3));
}

#[test]
fn au_to_meters_uses_frozen_au() {
    // 1e-10 AU is 14.959787 m.
    let mut c = CartesianCoords::au(100_000_000, -2_500_000_000_000_000_000, 0, true);
    c.to_meters();
    assert!(c.is_meters);
    assert!(c.heliocentric);
    assert_eq!((c.xh, c.yh, c.zh), (14_959_787, -373_994_675_000_000_000, 0));
    c.to_meters();
    assert_eq!(c.xh, 14_959_787);
}

#[test]
fn meters_to_au_uses_frozen_au() {
    // 1.4959787e6 m is 1e-5 AU.
    let mut c = CartesianCoords { is_meters: true, heliocentric: false, xh: 1_495_978_700_000, yh: 0, zh: -1 };
    c.to_au();
    assert!(!c.is_meters);
    assert!(!c.heliocentric);
    assert_eq!((c.xh, c.yh, c.zh), (10_000_000_000_000, 0, -7));
    c.to_au();
    assert_eq!(c.xh, 10_000_000_000_000);
}

#[test]
fn meters_to_au_and_back_is_exact() {
    for x in [0i128, 1, -1, 1_000, 7, 123_456_789, -LIMIT as i128, LIMIT as i128] {
        let mut c = CartesianCoords { is_meters: true, heliocentric: true, xh: x, yh: -x, zh: 3 };
        c.to_au();
        c.to_meters();
        assert_eq!((c.xh, c.yh, c.zh), (x, -x, 3));
    }
}

#[test]
fn au_to_meters_and_back_is_close() {
    for x in [0i128, 1, 10_000_000_000_000, -987_654_321_987_654_321] {
        let mut c = CartesianCoords::au(x, 0, 0, true);
        c.to_meters();
        c.to_au();
        assert!((c.xh - x).abs() <= 3);
    }
}

#[test]
fn integer_square_roots() {
    assert_eq!(isqrt_u128(0), 0);
    assert_eq!(isqrt_u128(1), 1);
    assert_eq!(isqrt_u128(15), 3);
    assert_eq!(isqrt_u128(16), 4);
    assert_eq!(isqrt_u128(25_000_000_000_000_000_000_000_000), 5_000_000_000_000);
    let big: u128 = (1u128 << 124) - 1;
    let r = isqrt_u128(big);
    assert!(r * r <= big && (r + 1) * (r + 1) > big);
}

#[test]
fn earth_gravity_at_low_orbit() {
    let g = newton_gravitational_field(&v(7_000_000_000_000, 0, 0), MU_EARTH).unwrap();
    assert_eq!((g.x, g.y, g.z), (8_134_380, 0, 0));
    let g = newton_gravitational_field(&v(-3_000_000_000_000, 4_000_000_000_000, 0), MU_EARTH).unwrap();
    assert_eq!((g.x, g.y, g.z), (-9_566_031, 12_754_708, 0));
}

#[test]
fn gravity_errors() {
    assert_eq!(newton_gravitational_field(&v(999_999, 0, 0), MU_EARTH), Err(FieldError::Coincident));
    assert_eq!(newton_gravitational_field(&v(0, 0, 0), MU_EARTH), Err(FieldError::Coincident));
    assert_eq!(newton_gravitational_field(&v(LIMIT + 1, 0, 0), MU_EARTH), Err(FieldError::OutOfRange));
    assert_eq!(newton_gravitational_field(&v(1_000_000, 0, 0), MU_EARTH), Err(FieldError::OutOfRange));
}

#[test]
fn vector_operations() {
    let a = v(1, -2, 3);
    let b = v(4, 5, -6);
    assert_eq!(a.add(&b), v(5, 3, -3));
    assert_eq!(a.sub(&b), v(-3, -7, 9));
    assert_eq!(a.dot(&b), 4 - 10 - 18);
    assert_eq!(a.mul_scalar(3), Some(v(3, -6, 9)));
    assert_eq!(v(LIMIT, 0, 0).mul_scalar(2), None);
}

#[test]
fn ids_follow_debris_then_spacecraft() {
    let d = Debris { id: 77, position: v(1, 2, 3), velocity: v(4, 5, 6) };
    let s = Spacecraft { id: 99, position: v(7, 8, 9), velocity: v(10, 11, 12) };
    let data = InitData { date: "2000-01-01T00:00:00".to_string(), debris: vec![d, d], spacecraft: vec![s] };
    let bodies = parse_inpt(&data).unwrap();
    assert_eq!(bodies.len(), 3);
    assert_eq!(bodies.iter().map(|b| b.id).collect::<Vec<_>>(), vec![0, 1, 2]);
    assert_eq!(bodies[0].kind, ObjKind::Debris);
    assert_eq!(bodies[1].kind, ObjKind::Debris);
    assert_eq!(bodies[2].kind, ObjKind::Spacecraft);
    assert_eq!(bodies[2].position, v(7, 8, 9));
    assert_eq!(bodies[2].velocity, v(10, 11, 12));
}

#[test]
fn loading_rejects_out_of_range_body() {
    let d = Debris { id: 0, position: v(1, 2, 3), velocity: v(4, 5, 6) };
    let s = Spacecraft { id: 0, position: v(LIMIT + 1, 0, 0), velocity: v(0, 0, 0) };
    let data = InitData { date: String::new(), debris: vec![d], spacecraft: vec![s] };
    assert_eq!(parse_inpt(&data), Err(InputError::OutOfRange { index: 1 }));
}

#[test]
fn simobj_methods() {
    let mut s = Spacecraft { id: 4, position: v(0, 0, 0), velocity: v(0, 0, 0) };
    assert_eq!(s.type_of(), "Spacecraft");
    *s.id_mut() = 9;
    assert_eq!(s.get_id(), 9);
    let d = Debris { id: 5, position: v(0, 0, 0), velocity: v(0, 0, 0) };
    assert_eq!(d.type_of(), "Debris");
    assert_eq!(leo_body(3).type_of(), "Spacecraft");
    assert_eq!(Solarobj::moon().to_name(), "Moon");
}

#[test]
fn epoch_from_date() {
    assert_eq!(epoch_seconds("2000-01-01T00:00:00"), Ok(0));
    assert_eq!(epoch_seconds("2000-01-02T12:00:00"), Ok(129_600));
    assert_eq!(epoch_seconds("1999-12-31T23:59:59"), Ok(-1));
    assert_eq!(epoch_seconds("2000-13-01T00:00:00"), Err(EpochError::BadDate));
    assert_eq!(epoch_seconds("yesterday"), Err(EpochError::BadDate));
}

#[test]
fn environment_orders_sun_earth_moon() {
    let env = env_at_j2000();
    let objs = env.get_solar_objects();
    assert_eq!(objs.len(), 3);
    assert!(matches!(objs[0].solartype, Solarobj::Sun { .. }));
    assert!(matches!(objs[1].solartype, Solarobj::Earth { .. }));
    assert!(matches!(objs[2].solartype, Solarobj::Moon { .. }));
    assert!(objs.iter().all(|b| !b.coords.is_meters));
    assert_eq!(objs[1].coords.xh, -177_100_000_000_000_000);
    assert_eq!((objs[0].coords.xh, objs[0].coords.yh, objs[0].coords.zh), (0, 0, 0));
    assert_eq!((env.sim_time_s, env.last_day_update_s), (0, 0));
}

#[test]
fn distances_are_geocentric() {
    let env = env_at_j2000();
    let p = v(1_000, 2_000, 3_000);
    assert_eq!(env.distance_to(&p, CENTRIC_INDEX), Some(v(-1_000, -2_000, -3_000)));
    assert_eq!(
        env.distance_to(&p, 0),
        Some(v(26_493_782_777_000_000 - 1_000, -144_691_059_864_000_000 - 2_000, -3_000))
    );
    assert_eq!(env.distance_to(&p, 2), Some(v(384_466_525_900_000 - 1_000, -2_000, -3_000)));
}

#[test]
fn body_at_earth_centre_is_coincident() {
    let env = env_at_j2000();
    let mut b = SmallBody { id: 0, kind: ObjKind::Spacecraft, position: v(0, 0, 0), velocity: v(0, 0, 0) };
    let before = b;
    assert_eq!(
        apply_perturbations(&mut b, &env, 1, true),
        Err(SimError::CoincidentBodies { id: 0, body: CENTRIC_INDEX })
    );
    assert_eq!(b, before);
}

#[test]
fn summed_acceleration_is_sum_of_contributions_in_any_order() {
    let env = env_at_j2000();
    let b = leo_body(2);
    let (total, records) = calc_planet_perturb(&b, &env, true).unwrap();
    let records = records.unwrap();
    assert_eq!(records.len(), 3);
    let acc: Vec<Array3d> = records.iter().map(|r| r.delta().acceleration).collect();
    let forward = acc[0].add(&acc[1]).add(&acc[2]);
    let backward = acc[2].add(&acc[1]).add(&acc[0]);
    assert_eq!(total.acceleration, forward);
    assert_eq!(total.acceleration, backward);
    assert_eq!(total.id, 2);
    // Earth dominates and pulls towards the centre.
    assert!(acc[1].x < -8_000_000 && acc[1].x > -8_300_000);
    assert_eq!(acc[1].y, 0);
    let (_, none) = calc_planet_perturb(&b, &env, false).unwrap();
    assert!(none.is_none());
}

#[test]
fn symplectic_euler_updates_velocity_then_position() {
    let env = env_at_j2000();
    let mut b = leo_body(1);
    let (total, _) = calc_planet_perturb(&b, &env, false).unwrap();
    let a = total.acceleration;
    let dt = 10;
    let before = b;
    let rec = apply_perturbations(&mut b, &env, dt, false).unwrap();
    assert!(rec.is_none());
    let nv = before.velocity.add(&a.mul_scalar(dt).unwrap());
    assert_eq!(b.velocity, nv);
    assert_eq!(b.position, before.position.add(&nv.mul_scalar(dt).unwrap()));
    assert_eq!((b.id, b.kind), (1, ObjKind::Spacecraft));
}

#[test]
fn tick_emits_perturbations_then_states() {
    let mut env = env_at_j2000();
    let params = SimulationParameters { sim_time_step: 1, sim_solar_step: 60 };
    let mut bodies = vec![leo_body(0)];
    for tick in 0..3i64 {
        let first = tick == 0;
        let due = solar_update_due(&env, first, &params);
        assert_eq!(due, first);
        if due {
            let solar = write_out_all_solar_objects(&env);
            assert_eq!(solar.len(), 3);
            assert!(solar.iter().all(|r| matches!(r, OutputRecord::SolarObject { coords, .. } if coords.is_meters)));
            if let OutputRecord::SolarObject { coords, .. } = &solar[2] {
                assert_eq!(coords.xh, 384_466_525_900_000);
            }
        }
        let rows = simulate_tick(&mut bodies, &mut env, &params).unwrap();
        assert_eq!(rows.len(), 4);
        assert!(rows[..3].iter().all(|r| matches!(r, OutputRecord::Perturbation { .. })));
        assert_eq!(rows[3], OutputRecord::ObjectState { sim_time: tick, object: bodies[0] });
        assert_eq!(env.sim_time_s, tick + 1);
    }
}

#[test]
fn solar_update_after_interval() {
    let mut env = env_at_j2000();
    let params = SimulationParameters { sim_time_step: 30, sim_solar_step: 60 };
    env.sim_time_s = 59;
    assert!(!solar_update_due(&env, false, &params));
    env.sim_time_s = 60;
    assert!(solar_update_due(&env, false, &params));
    env.update(earth_position(1, 2), moon_position(3, 4, 5));
    assert_eq!(env.last_day_update_s, 60);
    assert!(!solar_update_due(&env, false, &params));
    assert_eq!(env.get_solar_objects()[2].coords.zh, 5);
    assert_eq!(env.get_solar_objects()[1].coords.yh, 2);
}

#[test]
fn clock_overflow_leaves_bodies() {
    let mut env = env_at_j2000();
    env.sim_time_s = i64::MAX;
    let params = SimulationParameters { sim_time_step: 1, sim_solar_step: 60 };
    let mut bodies = vec![leo_body(0)];
    assert_eq!(simulate_tick(&mut bodies, &mut env, &params), Err(SimError::ClockOverflow));
    assert_eq!(bodies[0], leo_body(0));
    assert_eq!(env.sim_time_s, i64::MAX);
}

#[test]
fn state_records_and_kind_names() {
    let env = env_at_j2000();
    let bodies = vec![leo_body(0), leo_body(1)];
    let rows = write_out_all_object_parameters(&env, &bodies);
    assert_eq!(rows, vec![
        OutputRecord::ObjectState { sim_time: 0, object: bodies[0] },
        OutputRecord::ObjectState { sim_time: 0, object: bodies[1] },
    ]);
    let p = Perturbation::SolarObject(Solarobj::sun(), PerturbationDelta::default());
    assert_eq!(p.petrub_type(), "solar_obj_Sun");
    let p = Perturbation::SolarObject(Solarobj::earth(), PerturbationDelta::default());
    assert_eq!(p.petrub_type(), "solar_obj_Earth");
}

#[test]
fn low_earth_orbit_closes_after_one_period() {
    // Period of a circular orbit of radius 7000 km: 2π·sqrt(r³/μ) ≈ 5828 s.
    let mut env = env_at_j2000();
    let params = SimulationParameters { sim_time_step: 1, sim_solar_step: 1_000_000 };
    let mut bodies = vec![leo_body(0)];
    for _ in 0..5828 {
        simulate_tick(&mut bodies, &mut env, &params).unwrap();
    }
    let p = bodies[0].position;
    let dx = (p.x - 7_000_000_000_000) as f64;
    let dy = p.y as f64;
    let dz = p.z as f64;
    let off = (dx * dx + dy * dy + dz * dz).sqrt();
    assert!(off < 0.01 * 7.0e12, "off by {} µm", off);
}

#[test]
fn ephemeris_update_keeps_bodies() {
    let earth = earth_position(10, 20);
    let moon = moon_position(1, 2, 3);
    let mut empty: Vec<SolarBody> = Vec::new();
    update_solar_system_objs(&mut empty, earth, moon);
    assert!(empty.is_empty());
    let mut objs = vec![
        SolarBody { solartype: Solarobj::moon(), coords: moon_position(0, 0, 0) },
        SolarBody { solartype: Solarobj::sun(), coords: earth_position(5, 5) },
    ];
    update_solar_system_objs(&mut objs, earth, moon);
    assert_eq!(objs.len(), 2);
    assert_eq!(objs[0], SolarBody { solartype: Solarobj::moon(), coords: moon });
    assert_eq!(objs[1].solartype, Solarobj::sun());
    assert_eq!((objs[1].coords.xh, objs[1].coords.yh, objs[1].coords.zh), (0, 0, 0));
    let fresh = solar_system_objs(earth, moon);
    assert_eq!(fresh.len(), 3);
    assert_eq!(fresh[1], SolarBody { solartype: Solarobj::earth(), coords: earth });
}
