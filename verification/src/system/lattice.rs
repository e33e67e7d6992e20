//! Replication of a unit cell into a super-cell.
//!
//! A lattice is described by its sites. The site with index `k` names the
//! atom of the unit cell that it is an image of and the cell translation, in
//! whole cell vectors, that carries that atom onto it. The index of a site is
//! the id of the atom that stands there.

use vstd::arithmetic::div_mod::lemma_div_denominator;
use vstd::arithmetic::div_mod::lemma_fundamental_div_mod;
use vstd::arithmetic::div_mod::lemma_fundamental_div_mod_converse;
use vstd::arithmetic::div_mod::lemma_mod_bound;
use vstd::arithmetic::div_mod::lemma_multiply_divide_lt;
use vstd::prelude::*;

verus! {

/// One atom of the super-cell: an image of atom `source` of the unit cell,
/// translated by `x`, `y` and `z` whole cell vectors.
#[derive(Clone, Copy, Debug, PartialEq, Eq, Structural)]
pub struct LatticeSite {
    pub source: usize,
    pub x: usize,
    pub y: usize,
    pub z: usize,
}

/// Why a lattice cannot be generated.
#[derive(Clone, Copy, Debug, PartialEq, Eq, Structural)]
pub enum LatticeError {
    /// A replica count is zero.
    EmptyAxis,
    /// The super-cell holds more atoms than can be counted.
    TooManyAtoms,
}

/// The position of the cell `(x, y, z)` in the order in which cells are
/// visited: `x` varies slowest, `z` fastest.
pub open spec fn cell_rank(ry: nat, rz: nat, x: nat, y: nat, z: nat) -> nat {
    (x * ry + y) * rz + z
}

/// The index of the image of atom `source` in cell `(x, y, z)`.
pub open spec fn site_index(count: nat, ry: nat, rz: nat, site: LatticeSite) -> nat {
    cell_rank(ry, rz, site.x as nat, site.y as nat, site.z as nat) * count + site.source as nat
}

/// The site with index `k` in a lattice of `count` atoms per cell and `ry`,
/// `rz` replicas along the second and third axes.
pub open spec fn site_at(count: nat, ry: nat, rz: nat, k: nat) -> LatticeSite {
    let rank = k / count;
    LatticeSite {
        source: (k % count) as usize,
        x: (rank / (ry * rz)) as usize,
        y: ((rank / rz) % ry) as usize,
        z: (rank % rz) as usize,
    }
}

/// The number of atoms in the super-cell.
pub open spec fn lattice_size(count: nat, rx: nat, ry: nat, rz: nat) -> nat {
    count * rx * ry * rz
}

/// All sites of the super-cell, in the order of their ids.
pub open spec fn lattice_sites(count: nat, rx: nat, ry: nat, rz: nat) -> Seq<LatticeSite> {
    Seq::new(lattice_size(count, rx, ry, rz), |k: int| site_at(count, ry, rz, k as nat))
}

/// A site lies inside the super-cell.
pub open spec fn site_in_lattice(count: nat, rx: nat, ry: nat, rz: nat, site: LatticeSite) -> bool {
    &&& (site.source as nat) < count
    &&& (site.x as nat) < rx
    &&& (site.y as nat) < ry
    &&& (site.z as nat) < rz
}

/// The rank of a cell inside the super-cell is below the number of cells,
/// and the cell is recovered from its rank.
pub proof fn lemma_cell_rank(rx: nat, ry: nat, rz: nat, x: nat, y: nat, z: nat)
    requires
        x < rx,
        y < ry,
        z < rz,
    ensures
        cell_rank(ry, rz, x, y, z) < rx * ry * rz,
        cell_rank(ry, rz, x, y, z) / (ry * rz) == x,
        (cell_rank(ry, rz, x, y, z) / rz) % ry == y,
        cell_rank(ry, rz, x, y, z) % rz == z,
{
    let rank = cell_rank(ry, rz, x, y, z) as int;
    let row = (x * ry + y) as int;
    lemma_fundamental_div_mod_converse(rank, rz as int, row, z as int);
    lemma_fundamental_div_mod_converse(row, ry as int, x as int, y as int);
    let inner = (y * rz + z) as int;
    assert(inner < ry * rz) by (nonlinear_arith)
        requires
            inner == y * rz + z,
            y < ry,
            z < rz,
    ;
    assert(rank == x * (ry * rz) + inner) by (nonlinear_arith)
        requires
            rank == (x * ry + y) * rz + z,
            inner == y * rz + z,
    ;
    lemma_fundamental_div_mod_converse(rank, (ry * rz) as int, x as int, inner);
    assert(rank < rx * ry * rz) by (nonlinear_arith)
        requires
            rank == x * (ry * rz) + inner,
            inner < ry * rz,
            x < rx,
            0 <= x,
    ;
}

/// A site inside the super-cell stands at its index, and that index is below
/// the size of the lattice.
pub proof fn lemma_site_at_index(count: nat, rx: nat, ry: nat, rz: nat, site: LatticeSite)
    requires
        site_in_lattice(count, rx, ry, rz, site),
    ensures
        site_index(count, ry, rz, site) < lattice_size(count, rx, ry, rz),
        site_at(count, ry, rz, site_index(count, ry, rz, site)) == site,
{
    let rank = cell_rank(ry, rz, site.x as nat, site.y as nat, site.z as nat);
    let k = site_index(count, ry, rz, site);
    lemma_cell_rank(rx, ry, rz, site.x as nat, site.y as nat, site.z as nat);
    lemma_fundamental_div_mod_converse(k as int, count as int, rank as int, site.source as int);
    let cells = rx * ry * rz;
    assert(k < count * cells) by (nonlinear_arith)
        requires
            k == rank * count + site.source as nat,
            (site.source as nat) < count,
            rank < cells,
    ;
    assert(count * cells == count * rx * ry * rz) by (nonlinear_arith)
        requires
            cells == rx * ry * rz,
    ;
}

/// Every site of the lattice lies inside the super-cell and stands at its
/// own index: the sites are the images of each atom of the unit cell in each
/// cell, each of them once.
pub proof fn lemma_site_at_in_lattice(count: nat, rx: nat, ry: nat, rz: nat, k: nat)
    requires
        k < lattice_size(count, rx, ry, rz),
        lattice_fits(count, rx, ry, rz),
    ensures
        site_in_lattice(count, rx, ry, rz, site_at(count, ry, rz, k)),
        site_index(count, ry, rz, site_at(count, ry, rz, k)) == k,
{
    let cells = rx * ry * rz;
    assert(count * cells == count * rx * ry * rz) by (nonlinear_arith)
        requires
            cells == rx * ry * rz,
    ;
    assert(count > 0 && rx > 0 && ry > 0 && rz > 0) by (nonlinear_arith)
        requires
            k < count * rx * ry * rz,
    ;
    let rank = (k / count) as int;
    lemma_fundamental_div_mod(k as int, count as int);
    lemma_mod_bound(k as int, count as int);
    lemma_multiply_divide_lt(k as int, count as int, cells as int);
    let row = rank / (rz as int);
    lemma_fundamental_div_mod(rank, rz as int);
    lemma_mod_bound(rank, rz as int);
    lemma_fundamental_div_mod(row, ry as int);
    lemma_mod_bound(row, ry as int);
    lemma_div_denominator(rank, rz as int, ry as int);
    assert(rz * ry == ry * rz) by (nonlinear_arith);
    assert(rx * ry * rz == (ry * rz) * rx) by (nonlinear_arith);
    lemma_multiply_divide_lt(rank, (ry * rz) as int, rx as int);
    let x = row / (ry as int);
    let y = row % (ry as int);
    let z = rank % (rz as int);
    assert(rank == (x * ry + y) * rz + z) by (nonlinear_arith)
        requires
            rank == rz * row + z,
            row == ry * x + y,
    ;
    assert(k == rank * count + k % count) by (nonlinear_arith)
        requires
            k == count * rank + k % count,
    ;
    assert(rx <= count * rx * ry * rz && ry <= count * rx * ry * rz && rz <= count * rx * ry * rz
        && count <= count * rx * ry * rz) by (nonlinear_arith)
        requires
            count > 0 && rx > 0 && ry > 0 && rz > 0,
    ;
}

/// The lattice holds as many atoms as the unit cell times the three replica
/// counts.
pub proof fn lemma_lattice_count(count: nat, replicas: [usize; 3])
    requires
        generated_lattice(count, replicas) is Ok,
    ensures
        generated_lattice(count, replicas).unwrap().len() == count * replicas[0] * replicas[1]
            * replicas[2],
{
}

/// A single replica along every axis leaves the unit cell as it is: site
/// `k` is atom `k`, untranslated.
pub proof fn lemma_single_cell_is_identity(count: nat, replicas: [usize; 3])
    requires
        count <= usize::MAX,
        replicas[0] == 1,
        replicas[1] == 1,
        replicas[2] == 1,
    ensures
        generated_lattice(count, replicas) == Ok::<Seq<LatticeSite>, LatticeError>(
            Seq::new(count, |k: int| LatticeSite { source: k as usize, x: 0, y: 0, z: 0 }),
        ),
{
    assert(lattice_size(count, 1, 1, 1) == count) by (nonlinear_arith);
    let sites = lattice_sites(count, 1, 1, 1);
    let same = Seq::new(count, |k: int| LatticeSite { source: k as usize, x: 0, y: 0, z: 0 });
    assert forall|k: int| 0 <= k < count implies sites[k] == same[k] by {
        lemma_site_at_in_lattice(count, 1, 1, 1, k as nat);
        let site = site_at(count, 1, 1, k as nat);
        assert(cell_rank(1, 1, 0, 0, 0) * count == 0) by (nonlinear_arith);
        assert(site.source == k);
    }
    assert(sites =~= same);
}

/// The size of the lattice, where it can be counted.
pub open spec fn lattice_fits(count: nat, rx: nat, ry: nat, rz: nat) -> bool {
    lattice_size(count, rx, ry, rz) <= usize::MAX
}

/// What `generate_lattice` returns for `count` atoms in the unit cell.
pub open spec fn generated_lattice(count: nat, replicas: [usize; 3]) -> Result<
    Seq<LatticeSite>,
    LatticeError,
> {
    let rx = replicas[0] as nat;
    let ry = replicas[1] as nat;
    let rz = replicas[2] as nat;
    if rx == 0 || ry == 0 || rz == 0 {
        Err(LatticeError::EmptyAxis)
    } else if !lattice_fits(count, rx, ry, rz) {
        Err(LatticeError::TooManyAtoms)
    } else {
        Ok(lattice_sites(count, rx, ry, rz))
    }
}

/// Multiplies the number of atoms per cell by the three replica counts,
/// unless the product cannot be counted.
fn checked_lattice_size(count: usize, rx: usize, ry: usize, rz: usize) -> (total: Option<usize>)
    requires
        count >= 1,
        rx >= 1,
        ry >= 1,
        rz >= 1,
    ensures
        total matches Some(n) ==> n == lattice_size(count as nat, rx as nat, ry as nat, rz as nat),
        total is None ==> !lattice_fits(count as nat, rx as nat, ry as nat, rz as nat),
{
    let along_x = match count.checked_mul(rx) {
        Some(n) => n,
        None => {
            proof {
                assert(count * rx * ry * rz >= count * rx) by (nonlinear_arith)
                    requires
                        ry >= 1,
                        rz >= 1,
                        count >= 1,
                        rx >= 1,
                ;
            }
            return None;
        },
    };
    let along_y = match along_x.checked_mul(ry) {
        Some(n) => n,
        None => {
            proof {
                assert(count * rx * ry * rz >= count * rx * ry) by (nonlinear_arith)
                    requires
                        ry >= 1,
                        rz >= 1,
                        count >= 1,
                        rx >= 1,
                ;
            }
            return None;
        },
    };
    along_y.checked_mul(rz)
}

/// Lists the sites of the super-cell that `replicas` unit cells along the
/// three axes make up, for a unit cell of `count` atoms. The atoms of the
/// unit cell come first, in their own order; the images follow cell by cell,
/// the third axis varying fastest. Fails where a replica count is zero or
/// the number of sites cannot be counted.
pub fn generate_lattice(count: usize, replicas: [usize; 3]) -> (r: Result<
    Vec<LatticeSite>,
    LatticeError,
>)
    ensures
        match r {
            Ok(sites) => generated_lattice(count as nat, replicas) == Ok::<
                Seq<LatticeSite>,
                LatticeError,
            >(sites@),
            Err(e) => generated_lattice(count as nat, replicas) == Err::<
                Seq<LatticeSite>,
                LatticeError,
            >(e),
        },
{
    let rx = replicas[0];
    let ry = replicas[1];
    let rz = replicas[2];
    if rx == 0 || ry == 0 || rz == 0 {
        return Err(LatticeError::EmptyAxis);
    }
    let mut sites: Vec<LatticeSite> = Vec::new();
    if count == 0 {
        proof {
            assert(lattice_size(0, rx as nat, ry as nat, rz as nat) == 0) by (nonlinear_arith);
            assert(sites@ =~= lattice_sites(0, rx as nat, ry as nat, rz as nat));
        }
        return Ok(sites);
    }
    let total = match checked_lattice_size(count, rx, ry, rz) {
        Some(n) => n,
        None => {
            return Err(LatticeError::TooManyAtoms);
        },
    };
    let ghost n = count as nat;
    let ghost gy = ry as nat;
    let ghost gz = rz as nat;
    let mut x: usize = 0;
    proof {
        assert(cell_rank(gy, gz, 0, 0, 0) * n == 0) by (nonlinear_arith);
    }
    while x < rx
        invariant
            x <= rx,
            count >= 1,
            ry >= 1,
            rz >= 1,
            n == count,
            gy == ry,
            gz == rz,
            total == lattice_size(n, rx as nat, gy, gz),
            sites.len() == cell_rank(gy, gz, x as nat, 0, 0) * n,
            forall|k: int| 0 <= k < sites.len() ==> sites[k] == site_at(n, gy, gz, k as nat),
        decreases rx - x,
    {
        let mut y: usize = 0;
        while y < ry
            invariant
                x < rx,
                y <= ry,
                count >= 1,
                ry >= 1,
                rz >= 1,
                n == count,
                gy == ry,
                gz == rz,
                total == lattice_size(n, rx as nat, gy, gz),
                sites.len() == cell_rank(gy, gz, x as nat, y as nat, 0) * n,
                forall|k: int| 0 <= k < sites.len() ==> sites[k] == site_at(n, gy, gz, k as nat),
            decreases ry - y,
        {
            let mut z: usize = 0;
            while z < rz
                invariant
                    x < rx,
                    y < ry,
                    z <= rz,
                    count >= 1,
                    ry >= 1,
                    rz >= 1,
                    n == count,
                    gy == ry,
                    gz == rz,
                    total == lattice_size(n, rx as nat, gy, gz),
                    sites.len() == cell_rank(gy, gz, x as nat, y as nat, z as nat) * n,
                    forall|k: int|
                        0 <= k < sites.len() ==> sites[k] == site_at(n, gy, gz, k as nat),
                decreases rz - z,
            {
                let mut source: usize = 0;
                while source < count
                    invariant
                        x < rx,
                        y < ry,
                        z < rz,
                        source <= count,
                        count >= 1,
                        n == count,
                        gy == ry,
                        gz == rz,
                        total == lattice_size(n, rx as nat, gy, gz),
                        sites.len() == cell_rank(gy, gz, x as nat, y as nat, z as nat) * n
                            + source,
                        forall|k: int|
                            0 <= k < sites.len() ==> sites[k] == site_at(n, gy, gz, k as nat),
                    decreases count - source,
                {
                    let site = LatticeSite { source, x, y, z };
                    proof {
                        lemma_site_at_index(n, rx as nat, gy, gz, site);
                    }
                    sites.push(site);
                    source += 1;
                }
                proof {
                    assert(cell_rank(gy, gz, x as nat, y as nat, z as nat) * n + n == cell_rank(
                        gy,
                        gz,
                        x as nat,
                        y as nat,
                        (z + 1) as nat,
                    ) * n) by (nonlinear_arith);
                }
                z += 1;
            }
            proof {
                assert(cell_rank(gy, gz, x as nat, y as nat, gz) == cell_rank(
                    gy,
                    gz,
                    x as nat,
                    (y + 1) as nat,
                    0,
                )) by (nonlinear_arith);
            }
            y += 1;
        }
        proof {
            assert(cell_rank(gy, gz, x as nat, gy, 0) == cell_rank(gy, gz, (x + 1) as nat, 0, 0))
                by (nonlinear_arith);
        }
        x += 1;
    }
    proof {
        assert(cell_rank(gy, gz, rx as nat, 0, 0) * n == lattice_size(n, rx as nat, gy, gz))
            by (nonlinear_arith);
        assert(sites@ =~= lattice_sites(n, rx as nat, gy, gz));
    }
    Ok(sites)
}

} // verus!
