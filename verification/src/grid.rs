//! The simulation grid and the number of workgroups that covers it.

use vstd::prelude::*;

verus! {

/// Edge of the square tile of cells that one workgroup computes, when the
/// host chooses none.
pub const DEFAULT_WORKGROUP_EDGE: u32 = 8;

/// Why a grid was refused at startup.
#[derive(Clone, Copy, Debug, PartialEq, Eq, Structural)]
pub enum ConfigError {
    /// The workgroup edge is zero, so no tile covers any cell.
    ZeroWorkgroupEdge,
    /// The width or the height is no whole number of workgroup edges.
    NotDivisible,
}

/// Number of tiles of `edge` cells needed to cover `cells` cells in a row.
pub open spec fn tiles_to_cover(cells: nat, edge: nat) -> nat
    recommends
        edge > 0,
{
    if cells % edge == 0 {
        cells / edge
    } else {
        cells / edge + 1
    }
}

/// Whether whole tiles of `edge` cells cover a grid of `width` by `height`
/// cells exactly.
pub open spec fn tiles_exactly(width: nat, height: nat, edge: nat) -> bool {
    edge > 0 && width % edge == 0 && height % edge == 0
}

/// A grid as contracts see it.
pub struct GridShape {
    pub width: nat,
    pub height: nat,
    pub workgroup_edge: nat,
}

impl GridShape {
    /// Workgroups along the width, along the height and in depth that
    /// cover the grid.
    pub open spec fn workgroups(self) -> (nat, nat, nat) {
        (
            tiles_to_cover(self.width, self.workgroup_edge),
            tiles_to_cover(self.height, self.workgroup_edge),
            1,
        )
    }
}

/// Extent of the grid in cells together with the workgroup edge it was
/// checked against. Fixed at startup.
#[derive(Clone, Copy, Debug)]
pub struct GridExtent {
    width: u32,
    height: u32,
    workgroup_edge: u32,
}

/// Workgroups to dispatch along each axis.
#[derive(Clone, Copy, Debug, PartialEq, Eq, Structural)]
pub struct DispatchGeometry {
    pub x: u32,
    pub y: u32,
    pub z: u32,
}

impl View for GridExtent {
    type V = GridShape;

    closed spec fn view(&self) -> GridShape {
        GridShape {
            width: self.width as nat,
            height: self.height as nat,
            workgroup_edge: self.workgroup_edge as nat,
        }
    }
}

impl GridExtent {
    #[verifier::type_invariant]
    spec fn divides(&self) -> bool {
        tiles_exactly(self.width as nat, self.height as nat, self.workgroup_edge as nat)
    }

    /// Accepts a grid whose width and height are whole numbers of workgroup
    /// edges, and refuses every other one.
    pub fn new(width: u32, height: u32, workgroup_edge: u32) -> (checked: Result<
        GridExtent,
        ConfigError,
    >)
        ensures
            checked is Ok <==> tiles_exactly(width as nat, height as nat, workgroup_edge as nat),
            checked matches Ok(extent) ==> extent@ == (GridShape {
                width: width as nat,
                height: height as nat,
                workgroup_edge: workgroup_edge as nat,
            }),
            checked matches Err(error) ==> (error == ConfigError::ZeroWorkgroupEdge
                <==> workgroup_edge == 0),
    {
        if workgroup_edge == 0 {
            Err(ConfigError::ZeroWorkgroupEdge)
        } else if width % workgroup_edge != 0 || height % workgroup_edge != 0 {
            Err(ConfigError::NotDivisible)
        } else {
            Ok(GridExtent { width, height, workgroup_edge })
        }
    }

    /// Width of the grid in cells.
    pub fn width(&self) -> (width: u32)
        ensures
            width == self@.width,
    {
        self.width
    }

    /// Height of the grid in cells.
    pub fn height(&self) -> (height: u32)
        ensures
            height == self@.height,
    {
        self.height
    }

    /// Edge of a workgroup tile in cells.
    pub fn workgroup_edge(&self) -> (edge: u32)
        ensures
            edge == self@.workgroup_edge,
            edge > 0,
    {
        proof {
            use_type_invariant(self);
        }
        self.workgroup_edge
    }

    /// The workgroups that cover the grid: one layer, and along each axis as
    /// many as tiles are needed to cover it. No tile reaches beyond the grid.
    pub fn dispatch_geometry(&self) -> (geometry: DispatchGeometry)
        ensures
            (geometry.x as nat, geometry.y as nat, geometry.z as nat) == self@.workgroups(),
            geometry.x * self@.workgroup_edge == self@.width,
            geometry.y * self@.workgroup_edge == self@.height,
    {
        proof {
            use_type_invariant(self);
            lemma_exact_cover(self.width as nat, self.workgroup_edge as nat);
            lemma_exact_cover(self.height as nat, self.workgroup_edge as nat);
        }
        DispatchGeometry {
            x: self.width / self.workgroup_edge,
            y: self.height / self.workgroup_edge,
            z: 1,
        }
    }
}

/// A length that is a whole number of edges is covered by its quotient, with
/// nothing left over.
pub proof fn lemma_exact_cover(cells: nat, edge: nat)
    requires
        edge > 0,
        cells % edge == 0,
    ensures
        tiles_to_cover(cells, edge) == cells / edge,
        (cells / edge) * edge == cells,
{
    vstd::arithmetic::div_mod::lemma_fundamental_div_mod(cells as int, edge as int);
    vstd::arithmetic::mul::lemma_mul_is_commutative(edge as int, (cells / edge) as int);
}

/// The number of tiles that covers a length is the least one that does.
pub proof fn lemma_tiles_to_cover_is_least(cells: nat, edge: nat)
    requires
        edge > 0,
    ensures
        tiles_to_cover(cells, edge) * edge >= cells,
        cells > 0 ==> (tiles_to_cover(cells, edge) - 1) * edge < cells,
{
    let q = cells / edge;
    let r = cells % edge;
    vstd::arithmetic::div_mod::lemma_fundamental_div_mod(cells as int, edge as int);
    vstd::arithmetic::mul::lemma_mul_is_commutative(edge as int, q as int);
    assert((q + 1) * edge == q * edge + edge) by (nonlinear_arith);
    assert((q - 1) * edge == q * edge - edge) by (nonlinear_arith);
}

} // verus!
