# gdal

Rust bindings to the GDAL geospatial library, split in two crates.

- `src/` is the library, verified with Verus: the option lists handed to
  GDAL's processing programs (`cpl::CslStringList` with GDAL's tokenizing and
  `NAME=VALUE` semantics, DEM, hill-shade and rasterization settings), the
  mapping between GDAL's C codes and the Rust enumerations, the raster
  buffer, the data type descriptors, the decimal numbers read and written,
  spatial reference texts and the request routing of the tile server. Each
  public function states its result in its `ensures`; the `law_*` proof
  functions state what holds across functions (what a read gives back of a
  write, round trips between codes and values).
- `app/` holds the calls into the GDAL C library (`gdal-sys`): datasets,
  drivers, bands, color tables, multidimensional arrays, DEM processing,
  rasterization, spatial references, vector datasets and geometries, GDAL's
  programs (`gdalbuildvrt`, `ogr2ogr`, `gdalmdimtranslate`), and the tile server.
- `tests/` runs the library on concrete values.
