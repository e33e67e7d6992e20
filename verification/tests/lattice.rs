use moldyn::system::lattice::generate_lattice;
use moldyn::system::lattice::LatticeError;
use moldyn::system::lattice::LatticeSite;

fn site(source: usize, x: usize, y: usize, z: usize) -> LatticeSite {
    LatticeSite { source, x, y, z }
}

#[test]
fn single_cell_keeps_the_atoms() {
    let sites = generate_lattice(3, [1, 1, 1]).unwrap();
    assert_eq!(sites, vec![site(0, 0, 0, 0), site(1, 0, 0, 0), site(2, 0, 0, 0)]);
}

#[test]
fn atom_count_is_the_product() {
    for count in 0..5usize {
        for rx in 1..4usize {
            for ry in 1..4usize {
                for rz in 1..4usize {
                    let sites = generate_lattice(count, [rx, ry, rz]).unwrap();
                    assert_eq!(sites.len(), count * rx * ry * rz);
                }
            }
        }
    }
}

#[test]
fn unit_cell_comes_first_and_the_third_axis_varies_fastest() {
    let sites = generate_lattice(2, [2, 1, 2]).unwrap();
    assert_eq!(
        sites,
        vec![
            site(0, 0, 0, 0),
            site(1, 0, 0, 0),
            site(0, 0, 0, 1),
            site(1, 0, 0, 1),
            site(0, 1, 0, 0),
            site(1, 1, 0, 0),
            site(0, 1, 0, 1),
            site(1, 1, 0, 1),
        ]
    );
}

#[test]
fn second_axis_varies_between_the_others() {
    let sites = generate_lattice(1, [2, 3, 2]).unwrap();
    assert_eq!(sites.len(), 12);
    assert_eq!(sites[0], site(0, 0, 0, 0));
    assert_eq!(sites[1], site(0, 0, 0, 1));
    assert_eq!(sites[2], site(0, 0, 1, 0));
    assert_eq!(sites[5], site(0, 0, 2, 1));
    assert_eq!(sites[6], site(0, 1, 0, 0));
    assert_eq!(sites[11], site(0, 1, 2, 1));
}

#[test]
fn every_image_occurs_once() {
    let sites = generate_lattice(3, [2, 3, 4]).unwrap();
    for source in 0..3 {
        for x in 0..2 {
            for y in 0..3 {
                for z in 0..4 {
                    let wanted = site(source, x, y, z);
                    assert_eq!(sites.iter().filter(|found| **found == wanted).count(), 1);
                    assert_eq!(sites[((x * 3 + y) * 4 + z) * 3 + source], wanted);
                }
            }
        }
    }
}

#[test]
fn empty_cell_gives_an_empty_lattice() {
    assert_eq!(generate_lattice(0, [5, 6, 7]), Ok(vec![]));
    assert_eq!(generate_lattice(0, [usize::MAX, usize::MAX, usize::MAX]), Ok(vec![]));
}

#[test]
fn zero_replicas_are_refused() {
    assert_eq!(generate_lattice(3, [0, 1, 1]), Err(LatticeError::EmptyAxis));
    assert_eq!(generate_lattice(3, [1, 0, 1]), Err(LatticeError::EmptyAxis));
    assert_eq!(generate_lattice(3, [1, 1, 0]), Err(LatticeError::EmptyAxis));
    assert_eq!(generate_lattice(0, [1, 1, 0]), Err(LatticeError::EmptyAxis));
}

#[test]
fn uncountable_lattice_is_refused() {
    assert_eq!(generate_lattice(2, [usize::MAX, 1, 1]), Err(LatticeError::TooManyAtoms));
    assert_eq!(generate_lattice(1, [usize::MAX, 1, 2]), Err(LatticeError::TooManyAtoms));
    assert_eq!(
        generate_lattice(1, [usize::MAX / 2, 2, 2]),
        Err(LatticeError::TooManyAtoms)
    );
}
