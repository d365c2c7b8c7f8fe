# bankomunal

Reglas de negocio de un Bankomunal (banco comunal de socios), verificadas con Verus.

- `src/`: la biblioteca verificada.
  - `texto`: recorte de espacios, comparación de textos y formato de enteros con ceros.
  - `fechas`: meses calendario entre fechas, mes de compra, vencimientos mensuales y la
    fecha de un desembolso.
  - `socios`: estatus, normalización y validación de la planilla de socio, cupo de socios.
  - `caja`: códigos del Libro de Ingresos y Egresos, descripciones de asientos y la
    trazabilidad exigida al corregir un mes cerrado.
  - `creditos`: catálogos de crédito, decisiones de la Junta, fiadores y numeración.
  - `acciones`: control de acciones por socio mes a mes y período de gracia del tope de
    participación.
  - `auth`: contraseña genérica con bcrypt y catálogo de Bankomunales.
  - `db`, `adaptadores`, `auditoria`: rutas de las bases, adaptadores de persistencia y
    bitácora.
- `tests/`: pruebas de la biblioteca.
- `app/`: la aplicación alrededor de la biblioteca: persistencia SQLite, servicios,
  cálculos en coma flotante (tablas de amortización, PPCFC, configuración) y las funciones
  que atiende la interfaz.
